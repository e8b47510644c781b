//! Fields of a transaction, read from the PDU of the direction they belong to.
use vstd::prelude::*;
use crate::model::{
    direction_spec, CipData, Direction, EnipItem, EnipItemIdentity, EnipItemPayload,
    EnipItemServices, EnipPayload, EnipPdu, EnipTransaction,
};

verus! {

/// The PDU that a direction reads: the request to the server, the response
/// to the client.
pub open spec fn pdu_for(tx: EnipTransaction, direction: Direction) -> Option<EnipPdu> {
    match direction {
        Direction::ToServer => tx.request,
        Direction::ToClient => tx.response,
    }
}

/// The CIP message of the first data item of a list.
pub open spec fn first_data(items: Seq<EnipItem>) -> Option<CipData>
    decreases items.len(),
{
    if items.len() == 0 {
        None
    } else {
        match items[0].payload {
            EnipItemPayload::Data(d) => Some(d),
            _ => first_data(items.drop_first()),
        }
    }
}

/// The CIP message of the first data item of a PDU with a CIP payload.
pub open spec fn pdu_cip(pdu: Option<EnipPdu>) -> Option<CipData> {
    match pdu {
        Some(p) => match p.payload {
            EnipPayload::Cip(items) => first_data(items@),
            _ => None,
        },
        None => None,
    }
}

/// The first item of a ListIdentity response, where it is an identity.
pub open spec fn first_identity(tx: EnipTransaction) -> Option<EnipItemIdentity> {
    match tx.response {
        Some(resp) => match resp.payload {
            EnipPayload::ListIdentity(items) => if items@.len() > 0 {
                match items@[0].payload {
                    EnipItemPayload::Identity(li) => Some(li),
                    _ => None,
                }
            } else {
                None
            },
            _ => None,
        },
        None => None,
    }
}

/// The first item of a ListServices response, where it is a services item.
pub open spec fn first_services(tx: EnipTransaction) -> Option<EnipItemServices> {
    match tx.response {
        Some(resp) => match resp.payload {
            EnipPayload::ListServices(items) => if items@.len() > 0 {
                match items@[0].payload {
                    EnipItemPayload::Services(ls) => Some(ls),
                    _ => None,
                }
            } else {
                None
            },
            _ => None,
        },
        None => None,
    }
}

/// The protocol version: that of a RegisterSession PDU in either direction,
/// else, in a response, that of the first ListServices or ListIdentity item.
pub open spec fn protocol_version_spec(tx: EnipTransaction, direction: Direction) -> Option<u16> {
    match pdu_for(tx, direction) {
        Some(pdu) => match pdu.payload {
            EnipPayload::RegisterSession(rs) => Some(rs.protocol_version),
            EnipPayload::ListServices(items) => if direction == Direction::ToClient
                && items@.len() > 0 && items@[0].payload is Services {
                Some(items@[0].payload->Services_0.protocol_version)
            } else {
                None
            },
            EnipPayload::ListIdentity(items) => if direction == Direction::ToClient
                && items@.len() > 0 && items@[0].payload is Identity {
                Some(items@[0].payload->Identity_0.protocol_version)
            } else {
                None
            },
            _ => None,
        },
        None => None,
    }
}

/// The PDU that a direction reads.
pub fn pdu_of(tx: &EnipTransaction, direction: Direction) -> (r: &Option<EnipPdu>)
    ensures
        *r == pdu_for(*tx, direction),
{
    match direction {
        Direction::ToServer => &tx.request,
        Direction::ToClient => &tx.response,
    }
}

/// The CIP message of the first data item of a PDU with a CIP payload; the
/// items after the first data item are not looked at.
pub fn first_cip_data(pdu: &Option<EnipPdu>) -> (r: Option<&CipData>)
    ensures
        r matches Some(d) ==> pdu_cip(*pdu) == Some(*d),
        r is None <==> pdu_cip(*pdu) is None,
{
    if let Some(p) = pdu {
        if let EnipPayload::Cip(items) = &p.payload {
            let mut i: usize = 0;
            assert(items@.subrange(0, items@.len() as int) =~= items@);
            while i < items.len()
                invariant
                    i <= items@.len(),
                    pdu_cip(*pdu) == first_data(items@),
                    first_data(items@) == first_data(items@.subrange(i as int, items@.len() as int)),
                decreases items@.len() - i,
            {
                let ghost rest = items@.subrange(i as int, items@.len() as int);
                assert(rest.drop_first() =~= items@.subrange(i + 1, items@.len() as int));
                assert(rest[0] == items@[i as int]);
                if let EnipItemPayload::Data(d) = &items[i].payload {
                    return Some(d);
                }
                i = i + 1;
            }
            assert(items@.subrange(i as int, items@.len() as int).len() == 0);
        }
    }
    None
}

fn identity_of(tx: &EnipTransaction) -> (r: Option<&EnipItemIdentity>)
    ensures
        r matches Some(li) ==> first_identity(*tx) == Some(*li),
        r is None <==> first_identity(*tx) is None,
{
    if let Some(response) = &tx.response {
        if let EnipPayload::ListIdentity(lip) = &response.payload {
            if lip.len() > 0 {
                if let EnipItemPayload::Identity(li) = &lip[0].payload {
                    return Some(li);
                }
            }
        }
    }
    None
}

fn services_of(tx: &EnipTransaction) -> (r: Option<&EnipItemServices>)
    ensures
        r matches Some(ls) ==> first_services(*tx) == Some(*ls),
        r is None <==> first_services(*tx) is None,
{
    if let Some(response) = &tx.response {
        if let EnipPayload::ListServices(lsp) = &response.payload {
            if lsp.len() > 0 {
                if let EnipItemPayload::Services(ls) = &lsp[0].payload {
                    return Some(ls);
                }
            }
        }
    }
    None
}

/// The top-level ENIP status of the PDU of the direction.
pub fn enip_get_status(tx: &EnipTransaction, direction: Direction) -> (r: Option<u32>)
    ensures
        r == (match pdu_for(*tx, direction) {
            Some(pdu) => Some(pdu.header.status),
            None => None,
        }),
        direction == Direction::ToServer ==> r == (match tx.request {
            Some(req) => Some(req.header.status),
            None => None,
        }),
        direction == Direction::ToClient ==> r == (match tx.response {
            Some(resp) => Some(resp.header.status),
            None => None,
        }),
{
    match pdu_of(tx, direction) {
        Some(pdu) => Some(pdu.header.status),
        None => None,
    }
}

/// The ENIP command of the PDU of the direction given by stream flags.
pub fn tx_get_command(tx: &EnipTransaction, direction: u8) -> (r: Option<u16>)
    ensures
        r == (match pdu_for(*tx, direction_spec(direction)) {
            Some(pdu) => Some(pdu.header.cmd),
            None => None,
        }),
        direction_spec(direction) == Direction::ToServer ==> r == (match tx.request {
            Some(req) => Some(req.header.cmd),
            None => None,
        }),
        direction_spec(direction) == Direction::ToClient ==> r == (match tx.response {
            Some(resp) => Some(resp.header.cmd),
            None => None,
        }),
{
    let direction = crate::model::direction_from_flags(direction);
    match pdu_of(tx, direction) {
        Some(pdu) => Some(pdu.header.cmd),
        None => None,
    }
}

/// The protocol version of a RegisterSession PDU, or of the first item of a
/// ListServices or ListIdentity response.
pub fn tx_get_protocol_version(tx: &EnipTransaction, direction: Direction) -> (r: Option<u16>)
    ensures
        r == protocol_version_spec(*tx, direction),
{
    match pdu_of(tx, direction) {
        Some(pdu) => match &pdu.payload {
            EnipPayload::RegisterSession(rs) => Some(rs.protocol_version),
            EnipPayload::ListServices(lsp) => {
                if direction == Direction::ToClient && lsp.len() > 0 {
                    if let EnipItemPayload::Services(ls) = &lsp[0].payload {
                        return Some(ls.protocol_version);
                    }
                }
                None
            },
            EnipPayload::ListIdentity(lip) => {
                if direction == Direction::ToClient && lip.len() > 0 {
                    if let EnipItemPayload::Identity(li) = &lip[0].payload {
                        return Some(li.protocol_version);
                    }
                }
                None
            },
            _ => None,
        },
        None => None,
    }
}

/// The capabilities of the first ListServices item.
pub fn tx_get_capabilities(tx: &EnipTransaction) -> (r: Option<u16>)
    ensures
        r == (match first_services(*tx) {
            Some(ls) => Some(ls.capabilities),
            None => None,
        }),
{
    match services_of(tx) {
        Some(ls) => Some(ls.capabilities),
        None => None,
    }
}

/// The vendor id of the first ListIdentity item.
pub fn tx_get_vendor_id(tx: &EnipTransaction) -> (r: Option<u16>)
    ensures
        r == (match first_identity(*tx) {
            Some(li) => Some(li.vendor_id),
            None => None,
        }),
{
    match identity_of(tx) {
        Some(li) => Some(li.vendor_id),
        None => None,
    }
}

/// The device state of the first ListIdentity item.
pub fn tx_get_state(tx: &EnipTransaction) -> (r: Option<u8>)
    ensures
        r == (match first_identity(*tx) {
            Some(li) => Some(li.state),
            None => None,
        }),
{
    match identity_of(tx) {
        Some(li) => Some(li.state),
        None => None,
    }
}

/// The serial number of the first ListIdentity item.
pub fn tx_get_serial(tx: &EnipTransaction) -> (r: Option<u32>)
    ensures
        r == (match first_identity(*tx) {
            Some(li) => Some(li.serial),
            None => None,
        }),
{
    match identity_of(tx) {
        Some(li) => Some(li.serial),
        None => None,
    }
}

/// The revision of the first ListIdentity item: major in the high byte,
/// minor in the low byte.
pub fn tx_get_revision(tx: &EnipTransaction) -> (r: Option<u16>)
    ensures
        r == (match first_identity(*tx) {
            Some(li) => Some((li.revision_major * 256 + li.revision_minor) as u16),
            None => None,
        }),
{
    match identity_of(tx) {
        Some(li) => {
            let major = li.revision_major;
            let minor = li.revision_minor;
            let v = ((major as u16) << 8) | (minor as u16);
            assert(v == major * 256 + minor) by (bit_vector)
                requires
                    v == ((major as u16) << 8) | (minor as u16),
            ;
            Some(v)
        },
        None => None,
    }
}

/// The product code of the first ListIdentity item.
pub fn tx_get_product_code(tx: &EnipTransaction) -> (r: Option<u16>)
    ensures
        r == (match first_identity(*tx) {
            Some(li) => Some(li.product_code),
            None => None,
        }),
{
    match identity_of(tx) {
        Some(li) => Some(li.product_code),
        None => None,
    }
}

/// The device status of the first ListIdentity item.
pub fn tx_get_identity_status(tx: &EnipTransaction) -> (r: Option<u16>)
    ensures
        r == (match first_identity(*tx) {
            Some(li) => Some(li.status),
            None => None,
        }),
{
    match identity_of(tx) {
        Some(li) => Some(li.status),
        None => None,
    }
}

/// The device type of the first ListIdentity item.
pub fn tx_get_device_type(tx: &EnipTransaction) -> (r: Option<u16>)
    ensures
        r == (match first_identity(*tx) {
            Some(li) => Some(li.device_type),
            None => None,
        }),
{
    match identity_of(tx) {
        Some(li) => Some(li.device_type),
        None => None,
    }
}

/// The product name bytes of the first ListIdentity item.
pub fn product_name_get_data(tx: &EnipTransaction) -> (r: Option<&[u8]>)
    ensures
        r matches Some(b) ==> first_identity(*tx) matches Some(li) && b@ == li.product_name@,
        r is None <==> first_identity(*tx) is None,
{
    match identity_of(tx) {
        Some(li) => Some(li.product_name.as_slice()),
        None => None,
    }
}

/// The service name bytes of the first ListServices item.
pub fn service_name_get_data(tx: &EnipTransaction) -> (r: Option<&[u8]>)
    ensures
        r matches Some(b) ==> first_services(*tx) matches Some(ls) && b@ == ls.service_name@,
        r is None <==> first_services(*tx) is None,
{
    match services_of(tx) {
        Some(ls) => Some(ls.service_name.as_slice()),
        None => None,
    }
}

} // verus!

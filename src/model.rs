//! The decoded EtherNet/IP transaction that the matchers read.
use vstd::prelude::*;

verus! {

/// The CIP service code of a Multiple Service Packet.
pub const CIP_MULTIPLE_SERVICE: u8 = 0x0a;

/// Path segment class (`segment_type >> 2`) of a class id.
pub const SEGMENT_CLASS: u8 = 8;

/// Path segment class (`segment_type >> 2`) of an instance id.
pub const SEGMENT_INSTANCE: u8 = 9;

/// Path segment class (`segment_type >> 2`) of an attribute id.
pub const SEGMENT_ATTRIBUTE: u8 = 12;

/// One element of a CIP request path.
#[derive(Clone, Copy, Debug, PartialEq, Eq, Structural)]
pub struct CipSegment {
    pub segment_type: u8,
    pub value: u32,
}

/// The service-specific part of a CIP request.
#[derive(Debug)]
pub enum EnipCipRequestPayload {
    GetAttributeList { attr_list: Vec<u16> },
    SetAttributeList { first_attr: Option<u16> },
    /// The bundled requests of a Multiple Service Packet.
    Multiple { packet_list: Vec<CipData> },
    Other,
}

/// The service-specific part of a CIP response.
#[derive(Debug)]
pub enum EnipCipResponsePayload {
    /// The bundled responses of a Multiple Service Packet.
    Multiple { packet_list: Vec<CipData> },
    Other,
}

/// A CIP request: the addressed object path and the service payload.
#[derive(Debug)]
pub struct CipRequest {
    pub path: Vec<CipSegment>,
    pub payload: EnipCipRequestPayload,
}

/// A CIP response: general status, extended status bytes and payload.
#[derive(Debug)]
pub struct CipResponse {
    pub status: u8,
    pub status_extended: Vec<u8>,
    pub payload: EnipCipResponsePayload,
}

/// The direction-tagged content of a CIP message.
#[derive(Debug)]
pub enum CipDir {
    Request(CipRequest),
    Response(CipResponse),
    Unknown,
}

/// A CIP message: its service code (without the response bit) and content.
#[derive(Debug)]
pub struct CipData {
    pub service: u8,
    pub cipdir: CipDir,
}

/// The identity item of a ListIdentity reply.
#[derive(Debug)]
pub struct EnipItemIdentity {
    pub protocol_version: u16,
    pub vendor_id: u16,
    pub device_type: u16,
    pub product_code: u16,
    pub revision_major: u8,
    pub revision_minor: u8,
    pub status: u16,
    pub serial: u32,
    pub product_name: Vec<u8>,
    pub state: u8,
}

/// The services item of a ListServices reply.
#[derive(Debug)]
pub struct EnipItemServices {
    pub protocol_version: u16,
    pub capabilities: u16,
    pub service_name: Vec<u8>,
}

/// The content of one item of an ENIP common packet format.
#[derive(Debug)]
pub enum EnipItemPayload {
    Data(CipData),
    Identity(EnipItemIdentity),
    Services(EnipItemServices),
    Other,
}

/// One item of an ENIP common packet format.
#[derive(Debug)]
pub struct EnipItem {
    pub item_type: u16,
    pub payload: EnipItemPayload,
}

/// The encapsulation header fields read by the matchers.
#[derive(Clone, Copy, Debug, PartialEq, Eq, Structural)]
pub struct EnipHeader {
    pub cmd: u16,
    pub status: u32,
}

/// The payload of a RegisterSession command.
#[derive(Clone, Copy, Debug, PartialEq, Eq, Structural)]
pub struct EnipRegisterSession {
    pub protocol_version: u16,
    pub options: u16,
}

/// The command-specific content of an ENIP PDU.
#[derive(Debug)]
pub enum EnipPayload {
    RegisterSession(EnipRegisterSession),
    ListServices(Vec<EnipItem>),
    ListIdentity(Vec<EnipItem>),
    Cip(Vec<EnipItem>),
    Other,
}

/// One ENIP PDU: header and payload.
#[derive(Debug)]
pub struct EnipPdu {
    pub header: EnipHeader,
    pub payload: EnipPayload,
}

/// One request/response exchange.
#[derive(Debug)]
pub struct EnipTransaction {
    pub request: Option<EnipPdu>,
    pub response: Option<EnipPdu>,
}

/// The flow direction a match is evaluated for.
#[derive(Clone, Copy, Debug, PartialEq, Eq, Structural)]
pub enum Direction {
    ToServer,
    ToClient,
}

/// Stream flag of the to-server direction.
pub const STREAM_TOSERVER: u8 = 0x04;

/// Stream flag of the to-client direction.
pub const STREAM_TOCLIENT: u8 = 0x08;

/// The direction that stream flags denote: to-client only when the to-client
/// flag is set and the to-server flag is not.
pub open spec fn direction_spec(flags: u8) -> Direction {
    if flags & STREAM_TOSERVER == 0 && flags & STREAM_TOCLIENT != 0 {
        Direction::ToClient
    } else {
        Direction::ToServer
    }
}

/// Reads the direction from stream flags.
pub fn direction_from_flags(flags: u8) -> (r: Direction)
    ensures
        r == direction_spec(flags),
{
    if flags & STREAM_TOSERVER == 0 && flags & STREAM_TOCLIENT != 0 {
        Direction::ToClient
    } else {
        Direction::ToServer
    }
}

} // verus!

//! Matching of CIP messages, through Multiple Service Packets.
use vstd::prelude::*;
use crate::model::{
    CipData, CipDir, CipSegment, EnipCipRequestPayload, EnipCipResponsePayload, CIP_MULTIPLE_SERVICE,
    SEGMENT_ATTRIBUTE, SEGMENT_CLASS,
};
use crate::rule::DetectCipServiceData;
use crate::uint::DetectUintData;

verus! {

/// How many Multiple Service Packets deep the matchers look.
pub const MAX_CIP_NESTING: usize = 16;

/// The messages bundled in a Multiple Service Packet; empty for any other
/// message.
pub open spec fn bundle(d: CipData) -> Seq<CipData> {
    if d.service != CIP_MULTIPLE_SERVICE {
        Seq::empty()
    } else {
        match d.cipdir {
            CipDir::Request(req) => match req.payload {
                EnipCipRequestPayload::Multiple { packet_list } => packet_list@,
                _ => Seq::empty(),
            },
            CipDir::Response(resp) => match resp.payload {
                EnipCipResponsePayload::Multiple { packet_list } => packet_list@,
                _ => Seq::empty(),
            },
            CipDir::Unknown => Seq::empty(),
        }
    }
}

/// The request path; empty for a response.
pub open spec fn path_of(dir: CipDir) -> Seq<CipSegment> {
    match dir {
        CipDir::Request(req) => req.path@,
        _ => Seq::empty(),
    }
}

/// Whether the request path holds a class segment with id `class`.
pub open spec fn has_class(dir: CipDir, class: u32) -> bool {
    exists|i: int|
        0 <= i < path_of(dir).len() && #[trigger] path_of(dir)[i].segment_type >> 2 == SEGMENT_CLASS
            && path_of(dir)[i].value == class
}

/// Whether the request path holds a segment of class `kind` whose value
/// satisfies `p`.
pub open spec fn path_satisfies(dir: CipDir, kind: u8, p: DetectUintData) -> bool {
    exists|i: int|
        0 <= i < path_of(dir).len() && #[trigger] path_of(dir)[i].segment_type >> 2 == kind
            && p.accepts(path_of(dir)[i].value)
}

/// Whether an attribute id that satisfies `p` is listed in the payload of
/// a Get or Set Attribute List request.
pub open spec fn listed_attribute(dir: CipDir, p: DetectUintData) -> bool {
    match dir {
        CipDir::Request(req) => match req.payload {
            EnipCipRequestPayload::GetAttributeList { attr_list } => exists|i: int|
                0 <= i < attr_list@.len() && p.accepts(#[trigger] attr_list@[i] as u32),
            EnipCipRequestPayload::SetAttributeList { first_attr } => first_attr matches Some(
                a,
            ) && p.accepts(a as u32),
            _ => false,
        },
        _ => false,
    }
}

/// Whether the request addresses an attribute id that satisfies `p`.
pub open spec fn attribute_satisfies(dir: CipDir, p: DetectUintData) -> bool {
    path_satisfies(dir, SEGMENT_ATTRIBUTE, p) || listed_attribute(dir, p)
}

/// Whether the request addresses attribute `attr`.
pub open spec fn has_attribute(dir: CipDir, attr: u32) -> bool {
    attribute_satisfies(dir, DetectUintData::equal_spec(attr))
}

/// Whether a message itself satisfies a CIP service predicate: the service
/// matches, and where a class is given the path holds it, and where an
/// attribute is given too the request addresses it.
pub open spec fn service_direct(d: CipData, ctx: DetectCipServiceData) -> bool {
    d.service == ctx.service && match ctx.class {
        None => true,
        Some(class) => has_class(d.cipdir, class) && match ctx.attribute {
            None => true,
            Some(attr) => has_attribute(d.cipdir, attr),
        },
    }
}

/// A matcher over CIP messages: the predicate of one keyword family.
#[derive(Clone, Copy, Debug, PartialEq, Eq, Structural)]
pub enum CipQuery {
    /// Service, and optionally class and attribute, of a message.
    Service(DetectCipServiceData),
    /// General status of a response.
    Status(DetectUintData),
    /// Two-byte extended status of a response.
    ExtendedStatus(DetectUintData),
    /// Value of a request path segment of the given class.
    Segment(DetectUintData, u8),
    /// Attribute id addressed by a request.
    Attribute(DetectUintData),
}

/// The extended status as a little-endian 16-bit value, where it is two
/// bytes long.
pub open spec fn extended_status_value(s: Seq<u8>) -> Option<u16> {
    if s.len() == 2 {
        Some((s[1] * 256 + s[0]) as u16)
    } else {
        None
    }
}

/// Whether a message itself, leaving aside what is bundled in it, satisfies
/// the query.
pub open spec fn query_direct(d: CipData, q: CipQuery) -> bool {
    match q {
        CipQuery::Service(ctx) => service_direct(d, ctx),
        CipQuery::Status(p) => d.cipdir matches CipDir::Response(resp) && p.accepts(
            resp.status as u32,
        ),
        CipQuery::ExtendedStatus(p) => d.cipdir matches CipDir::Response(resp)
            && extended_status_value(resp.status_extended@) matches Some(v) && p.accepts(v as u32),
        CipQuery::Segment(p, kind) => path_satisfies(d.cipdir, kind, p),
        CipQuery::Attribute(p) => attribute_satisfies(d.cipdir, p),
    }
}

/// Whether the query looks into the messages bundled in `d`: status queries
/// look into responses, segment and attribute queries into requests, the
/// service query into both.
pub open spec fn query_descends(d: CipData, q: CipQuery) -> bool {
    match q {
        CipQuery::Service(_) => true,
        CipQuery::Status(_) | CipQuery::ExtendedStatus(_) => d.cipdir is Response,
        CipQuery::Segment(..) | CipQuery::Attribute(_) => d.cipdir is Request,
    }
}

/// A message satisfies the query, itself or through the messages bundled in
/// it, at most `depth` Multiple Service Packets deep.
pub open spec fn query_hit(d: CipData, q: CipQuery, depth: nat) -> bool
    decreases depth, 0nat,
{
    query_direct(d, q) || (depth > 0 && query_descends(d, q) && query_hit_any(
        bundle(d),
        q,
        (depth - 1) as nat,
    ))
}

/// One of the messages satisfies the query, at most `depth` Multiple Service
/// Packets deep.
pub open spec fn query_hit_any(l: Seq<CipData>, q: CipQuery, depth: nat) -> bool
    decreases depth, l.len() + 1,
{
    l.len() > 0 && (query_hit(l[0], q, depth) || query_hit_any(l.drop_first(), q, depth))
}

/// One bundled message that satisfies the query makes the list satisfy it,
/// whatever the messages before and after it are.
pub proof fn lemma_entry_hit(l: Seq<CipData>, q: CipQuery, k: int, depth: nat)
    requires
        0 <= k < l.len(),
        query_hit(l[k], q, depth),
    ensures
        query_hit_any(l, q, depth),
    decreases k,
{
    if k > 0 {
        lemma_entry_hit(l.drop_first(), q, k - 1, depth);
    }
}

/// A list satisfies the query exactly when one of its messages does.
pub proof fn lemma_hit_any_exists(l: Seq<CipData>, q: CipQuery, depth: nat)
    ensures
        query_hit_any(l, q, depth) <==> exists|k: int|
            0 <= k < l.len() && #[trigger] query_hit(l[k], q, depth),
    decreases l.len(),
{
    if l.len() > 0 {
        lemma_hit_any_exists(l.drop_first(), q, depth);
        if query_hit_any(l, q, depth) && !query_hit(l[0], q, depth) {
            let k = choose|k: int|
                0 <= k < l.drop_first().len() && #[trigger] query_hit(l.drop_first()[k], q, depth);
            assert(query_hit(l[k + 1], q, depth));
        }
        if exists|k: int| 0 <= k < l.len() && #[trigger] query_hit(l[k], q, depth) {
            let k = choose|k: int| 0 <= k < l.len() && #[trigger] query_hit(l[k], q, depth);
            lemma_entry_hit(l, q, k, depth);
        }
    }
}

/// A Multiple Service Packet satisfies a query that looks into it as soon
/// as one of its bundled messages does, however many it bundles and whether
/// or not the messages before that one satisfy it.
pub proof fn lemma_multiple_hit(d: CipData, q: CipQuery, k: int, depth: nat)
    requires
        0 <= k < bundle(d).len(),
        query_descends(d, q),
        query_hit(bundle(d)[k], q, depth),
    ensures
        d.service == CIP_MULTIPLE_SERVICE,
        query_hit(d, q, depth + 1),
{
    lemma_entry_hit(bundle(d), q, k, depth);
}

/// Once a bundled message satisfies the query, the messages after it do not
/// change the outcome: the list and its prefix up to that message agree.
pub proof fn lemma_hit_ignores_rest(l: Seq<CipData>, q: CipQuery, k: int, depth: nat)
    requires
        0 <= k < l.len(),
        query_hit(l[k], q, depth),
    ensures
        query_hit_any(l, q, depth),
        query_hit_any(l, q, depth) == query_hit_any(l.subrange(0, k + 1), q, depth),
{
    lemma_entry_hit(l, q, k, depth);
    assert(l.subrange(0, k + 1)[k] == l[k]);
    lemma_entry_hit(l.subrange(0, k + 1), q, k, depth);
}

/// A response satisfies an extended status query by itself exactly when its
/// extended status is two bytes `[lo, hi]` and `hi * 256 + lo` satisfies the
/// predicate; any other length never does.
pub proof fn lemma_extended_status_direct(d: CipData, p: DetectUintData)
    ensures
        query_direct(d, CipQuery::ExtendedStatus(p)) <==> (d.cipdir matches CipDir::Response(resp)
            && resp.status_extended@.len() == 2 && p.accepts(
            (resp.status_extended@[1] * 256 + resp.status_extended@[0]) as u16 as u32,
        )),
{
}

/// The messages bundled in a Multiple Service Packet.
fn bundle_of(d: &CipData) -> (r: Option<&Vec<CipData>>)
    ensures
        r matches Some(l) ==> l@ == bundle(*d),
        r is None ==> bundle(*d).len() == 0,
{
    if d.service != CIP_MULTIPLE_SERVICE {
        return None;
    }
    match &d.cipdir {
        CipDir::Request(req) => match &req.payload {
            EnipCipRequestPayload::Multiple { packet_list } => Some(packet_list),
            _ => None,
        },
        CipDir::Response(resp) => match &resp.payload {
            EnipCipResponsePayload::Multiple { packet_list } => Some(packet_list),
            _ => None,
        },
        CipDir::Unknown => None,
    }
}

/// Whether a request path holds a class segment with id `class`.
pub fn enip_cip_has_class(cipdir: &CipDir, class: u32) -> (r: bool)
    ensures
        r == has_class(*cipdir, class),
{
    if let CipDir::Request(req) = cipdir {
        let mut i: usize = 0;
        while i < req.path.len()
            invariant
                i <= req.path@.len(),
                path_of(*cipdir) == req.path@,
                forall|j: int|
                    0 <= j < i ==> !(#[trigger] req.path@[j].segment_type >> 2 == SEGMENT_CLASS
                        && req.path@[j].value == class),
            decreases req.path@.len() - i,
        {
            let seg = &req.path[i];
            if seg.segment_type >> 2 == SEGMENT_CLASS && seg.value == class {
                return true;
            }
            i = i + 1;
        }
    }
    false
}

/// Whether a request path holds a segment of class `kind` whose value
/// satisfies `p`.
fn cip_path_satisfies(cipdir: &CipDir, kind: u8, p: &DetectUintData) -> (r: bool)
    ensures
        r == path_satisfies(*cipdir, kind, *p),
{
    if let CipDir::Request(req) = cipdir {
        let mut i: usize = 0;
        while i < req.path.len()
            invariant
                i <= req.path@.len(),
                path_of(*cipdir) == req.path@,
                forall|j: int|
                    0 <= j < i ==> !(#[trigger] req.path@[j].segment_type >> 2 == kind
                        && p.accepts(req.path@[j].value)),
            decreases req.path@.len() - i,
        {
            let seg = &req.path[i];
            if seg.segment_type >> 2 == kind && p.evaluate(seg.value) {
                return true;
            }
            i = i + 1;
        }
    }
    false
}

/// Whether an attribute id of the list satisfies `p`.
fn any_attribute_accepted(attr_list: &Vec<u16>, p: &DetectUintData) -> (r: bool)
    ensures
        r == exists|i: int| 0 <= i < attr_list@.len() && p.accepts(#[trigger] attr_list@[i] as u32),
{
    let mut i: usize = 0;
    while i < attr_list.len()
        invariant
            i <= attr_list@.len(),
            forall|j: int| 0 <= j < i ==> !p.accepts(#[trigger] attr_list@[j] as u32),
        decreases attr_list@.len() - i,
    {
        if p.evaluate(attr_list[i] as u32) {
            assert(p.accepts(attr_list@[i as int] as u32));
            return true;
        }
        i = i + 1;
    }
    false
}

/// Whether a request addresses an attribute id that satisfies `p`, in its
/// path or in an attribute list payload.
fn cip_attribute_satisfies(cipdir: &CipDir, p: &DetectUintData) -> (r: bool)
    ensures
        r == attribute_satisfies(*cipdir, *p),
{
    if cip_path_satisfies(cipdir, SEGMENT_ATTRIBUTE, p) {
        return true;
    }
    if let CipDir::Request(req) = cipdir {
        match &req.payload {
            EnipCipRequestPayload::GetAttributeList { attr_list } => {
                if any_attribute_accepted(attr_list, p) {
                    return true;
                }
            },
            EnipCipRequestPayload::SetAttributeList { first_attr } => {
                if let Some(val) = first_attr {
                    if p.evaluate(*val as u32) {
                        return true;
                    }
                }
            },
            _ => {},
        }
    }
    false
}

/// Whether a request addresses attribute `attr`, in its path or in an
/// attribute list payload.
pub fn enip_cip_has_attribute(cipdir: &CipDir, attr: u32) -> (r: bool)
    ensures
        r == has_attribute(*cipdir, attr),
{
    cip_attribute_satisfies(cipdir, &DetectUintData::equal(attr))
}

/// Whether a message itself satisfies the query.
fn cip_query_direct(d: &CipData, q: &CipQuery) -> (r: bool)
    ensures
        r == query_direct(*d, *q),
{
    match q {
        CipQuery::Service(ctx) => {
            d.service == ctx.service && match ctx.class {
                None => true,
                Some(class) => enip_cip_has_class(&d.cipdir, class) && match ctx.attribute {
                    None => true,
                    Some(attr) => enip_cip_has_attribute(&d.cipdir, attr),
                },
            }
        },
        CipQuery::Status(p) => match &d.cipdir {
            CipDir::Response(resp) => p.evaluate(resp.status as u32),
            _ => false,
        },
        CipQuery::ExtendedStatus(p) => match &d.cipdir {
            CipDir::Response(resp) => match cip_extended_status_value(&resp.status_extended) {
                Some(v) => p.evaluate(v as u32),
                None => false,
            },
            _ => false,
        },
        CipQuery::Segment(p, kind) => cip_path_satisfies(&d.cipdir, *kind, p),
        CipQuery::Attribute(p) => cip_attribute_satisfies(&d.cipdir, p),
    }
}

/// The extended status as a little-endian 16-bit value: the second byte is
/// the high one. Any length but two gives no value.
pub fn cip_extended_status_value(status_extended: &Vec<u8>) -> (r: Option<u16>)
    ensures
        r == extended_status_value(status_extended@),
        status_extended@.len() == 2 ==> r == Some(
            (status_extended@[1] * 256 + status_extended@[0]) as u16,
        ),
        status_extended@.len() != 2 ==> r is None,
{
    if status_extended.len() == 2 {
        let lo = status_extended[0];
        let hi = status_extended[1];
        let v = ((hi as u16) << 8) | (lo as u16);
        assert(v == hi * 256 + lo) by (bit_vector)
            requires
                v == ((hi as u16) << 8) | (lo as u16),
        ;
        Some(v)
    } else {
        None
    }
}

fn cip_query_within(d: &CipData, q: &CipQuery, depth: usize) -> (r: bool)
    ensures
        r == query_hit(*d, *q, depth as nat),
    decreases depth, 0nat,
{
    if cip_query_direct(d, q) {
        return true;
    }
    if depth == 0 {
        return false;
    }
    let descends = match q {
        CipQuery::Service(_) => true,
        CipQuery::Status(_) | CipQuery::ExtendedStatus(_) => matches!(d.cipdir, CipDir::Response(_)),
        CipQuery::Segment(..) | CipQuery::Attribute(_) => matches!(d.cipdir, CipDir::Request(_)),
    };
    if !descends {
        return false;
    }
    match bundle_of(d) {
        Some(list) => cip_query_any(list, q, depth - 1),
        None => false,
    }
}

/// Whether one of the bundled messages satisfies the query. The messages are
/// tried in order, and the first that does ends the search.
fn cip_query_any(list: &Vec<CipData>, q: &CipQuery, depth: usize) -> (r: bool)
    ensures
        r == query_hit_any(list@, *q, depth as nat),
    decreases depth, list@.len() + 1,
{
    let mut k: usize = 0;
    assert(list@.subrange(0, list@.len() as int) =~= list@);
    while k < list.len()
        invariant
            k <= list@.len(),
            query_hit_any(list@.subrange(k as int, list@.len() as int), *q, depth as nat)
                == query_hit_any(list@, *q, depth as nat),
        decreases list@.len() - k,
    {
        let ghost rest = list@.subrange(k as int, list@.len() as int);
        assert(rest.drop_first() =~= list@.subrange(k + 1, list@.len() as int));
        assert(rest[0] == list@[k as int]);
        if cip_query_within(&list[k], q, depth) {
            return true;
        }
        k = k + 1;
    }
    assert(list@.subrange(k as int, list@.len() as int).len() == 0);
    false
}

/// Whether a CIP message satisfies a CIP service predicate, itself or
/// through the messages bundled in it.
pub fn enip_cip_match_service(d: &CipData, ctx: &DetectCipServiceData) -> (r: bool)
    ensures
        r == query_hit(*d, CipQuery::Service(*ctx), MAX_CIP_NESTING as nat),
{
    cip_query_within(d, &CipQuery::Service(*ctx), MAX_CIP_NESTING)
}

/// Whether the general status of a CIP response satisfies `ctx`, itself or
/// in the responses bundled in it.
pub fn enip_cip_match_status(d: &CipData, ctx: &DetectUintData) -> (r: bool)
    ensures
        r == query_hit(*d, CipQuery::Status(*ctx), MAX_CIP_NESTING as nat),
{
    cip_query_within(d, &CipQuery::Status(*ctx), MAX_CIP_NESTING)
}

/// Whether the two-byte extended status of a CIP response satisfies `ctx`,
/// itself or in the responses bundled in it.
pub fn enip_cip_match_extendedstatus(d: &CipData, ctx: &DetectUintData) -> (r: bool)
    ensures
        r == query_hit(*d, CipQuery::ExtendedStatus(*ctx), MAX_CIP_NESTING as nat),
{
    cip_query_within(d, &CipQuery::ExtendedStatus(*ctx), MAX_CIP_NESTING)
}

/// Whether a CIP request path holds a segment of class `segment_type` whose
/// value satisfies `ctx`, itself or in the requests bundled in it.
pub fn enip_cip_match_segment(d: &CipData, ctx: &DetectUintData, segment_type: u8) -> (r: bool)
    ensures
        r == query_hit(*d, CipQuery::Segment(*ctx, segment_type), MAX_CIP_NESTING as nat),
{
    cip_query_within(d, &CipQuery::Segment(*ctx, segment_type), MAX_CIP_NESTING)
}

/// Whether a CIP request addresses an attribute id that satisfies `ctx`,
/// itself or in the requests bundled in it.
pub fn enip_cip_match_attribute(d: &CipData, ctx: &DetectUintData) -> (r: bool)
    ensures
        r == query_hit(*d, CipQuery::Attribute(*ctx), MAX_CIP_NESTING as nat),
{
    cip_query_within(d, &CipQuery::Attribute(*ctx), MAX_CIP_NESTING)
}

} // verus!

//! The compound `service[,class[,[!]attribute]]` rule syntax.
use vstd::prelude::*;
use vstd::string::StringSliceAdditionalSpecFns;

verus! {

/// Space character of the rule syntax.
pub const SPACE: u8 = 0x20;

/// Tab character of the rule syntax.
pub const TAB: u8 = 0x09;

/// Separator between the fields of a rule.
pub const COMMA: u8 = 0x2c;

/// Prefix that drops the attribute constraint.
pub const BANG: u8 = 0x21;

/// The predicate of the CIP service keyword.
#[derive(Clone, Copy, Debug, Default, PartialEq, Eq, Structural)]
pub struct DetectCipServiceData {
    /// The CIP service code, below 0x80.
    pub service: u8,
    /// The class id that the request path must hold.
    pub class: Option<u32>,
    /// The attribute id that the request must address, when a class is given.
    pub attribute: Option<u32>,
}

/// Rule text that does not follow the CIP service syntax.
#[derive(Clone, Copy, Debug, PartialEq, Eq, Structural)]
pub struct CipServiceSyntaxError {
    /// Byte offset at which the text was given up.
    pub offset: usize,
}

pub open spec fn is_space(c: u8) -> bool {
    c == SPACE || c == TAB
}

pub open spec fn is_digit(c: u8) -> bool {
    0x30 <= c <= 0x39
}

/// The first offset at or after `i` that does not hold a space or a tab.
pub open spec fn skip_spaces(b: Seq<u8>, i: int) -> int
    decreases b.len() - i,
{
    if 0 <= i < b.len() && is_space(b[i]) {
        skip_spaces(b, i + 1)
    } else {
        i
    }
}

/// The first offset at or after `i` that does not hold a decimal digit.
pub open spec fn skip_digits(b: Seq<u8>, i: int) -> int
    decreases b.len() - i,
{
    if 0 <= i < b.len() && is_digit(b[i]) {
        skip_digits(b, i + 1)
    } else {
        i
    }
}

/// The number that a string of decimal digits denotes.
pub open spec fn decimal(d: Seq<u8>) -> nat
    decreases d.len(),
{
    if d.len() == 0 {
        0
    } else {
        decimal(d.drop_last()) * 10 + (d.last() - 0x30) as nat
    }
}

/// The number written by the digits that start at `i`.
pub open spec fn number_at(b: Seq<u8>, i: int) -> nat {
    decimal(b.subrange(i, skip_digits(b, i)))
}

/// The predicate that rule text denotes, or `None` where the text is not in
/// the syntax `ws service ws ("," ws class ws ("," ws ["!"] attribute ws)?)?`
/// with a service below 0x80 and a class and an attribute that fit in `u32`.
/// A negated attribute leaves the attribute unconstrained.
pub open spec fn cip_service_rule(b: Seq<u8>) -> Option<DetectCipServiceData> {
    let s0 = skip_spaces(b, 0);
    let s1 = skip_digits(b, s0);
    let service = number_at(b, s0);
    let s2 = skip_spaces(b, s1);
    if s1 == s0 || service >= 0x80 {
        None
    } else if s2 == b.len() {
        Some(DetectCipServiceData { service: service as u8, class: None, attribute: None })
    } else if b[s2] != COMMA {
        None
    } else {
        let c0 = skip_spaces(b, s2 + 1);
        let c1 = skip_digits(b, c0);
        let class = number_at(b, c0);
        let c2 = skip_spaces(b, c1);
        if c1 == c0 || class > u32::MAX {
            None
        } else if c2 == b.len() {
            Some(
                DetectCipServiceData {
                    service: service as u8,
                    class: Some(class as u32),
                    attribute: None,
                },
            )
        } else if b[c2] != COMMA {
            None
        } else {
            let a0 = skip_spaces(b, c2 + 1);
            let negated = a0 < b.len() && b[a0] == BANG;
            let a1 = if negated {
                a0 + 1
            } else {
                a0
            };
            let a2 = skip_digits(b, a1);
            let attribute = number_at(b, a1);
            if a2 == a1 || attribute > u32::MAX || skip_spaces(b, a2) != b.len() {
                None
            } else {
                Some(
                    DetectCipServiceData {
                        service: service as u8,
                        class: Some(class as u32),
                        attribute: if negated {
                            None
                        } else {
                            Some(attribute as u32)
                        },
                    },
                )
            }
        }
    }
}

/// Skips spaces and tabs from offset `i`.
fn scan_spaces(b: &[u8], i: usize) -> (r: usize)
    requires
        i <= b@.len(),
    ensures
        r == skip_spaces(b@, i as int),
        i <= r <= b@.len(),
{
    let mut k: usize = i;
    while k < b.len() && (b[k] == SPACE || b[k] == TAB)
        invariant
            i <= k <= b@.len(),
            skip_spaces(b@, k as int) == skip_spaces(b@, i as int),
        decreases b@.len() - k,
    {
        k = k + 1;
    }
    k
}

/// Scans the decimal digits from offset `i`: where they end, and their value
/// where it fits in `u32`.
fn scan_number(b: &[u8], i: usize) -> (r: (usize, Option<u32>))
    requires
        i <= b@.len(),
    ensures
        r.0 == skip_digits(b@, i as int),
        i <= r.0 <= b@.len(),
        r.1 == (if number_at(b@, i as int) <= u32::MAX {
            Some(number_at(b@, i as int) as u32)
        } else {
            None
        }),
{
    let mut k: usize = i;
    let mut acc: u64 = 0;
    let mut overflow = false;
    assert(b@.subrange(i as int, i as int).len() == 0);
    while k < b.len() && 0x30 <= b[k] && b[k] <= 0x39
        invariant
            i <= k <= b@.len(),
            skip_digits(b@, k as int) == skip_digits(b@, i as int),
            !overflow ==> acc == decimal(b@.subrange(i as int, k as int)) && acc <= u32::MAX,
            overflow ==> decimal(b@.subrange(i as int, k as int)) > u32::MAX,
        decreases b@.len() - k,
    {
        let ghost prev = b@.subrange(i as int, k as int);
        let ghost next = b@.subrange(i as int, k + 1);
        assert(next.drop_last() =~= prev);
        assert(next.last() == b@[k as int]);
        if !overflow {
            acc = acc * 10 + (b[k] - 0x30) as u64;
            if acc > u32::MAX as u64 {
                overflow = true;
            }
        }
        k = k + 1;
    }
    if overflow {
        (k, None)
    } else {
        (k, Some(acc as u32))
    }
}

/// Digits from `i` to the end leave nothing to skip past the end.
proof fn lemma_digits_to_end(b: Seq<u8>, i: int)
    requires
        0 <= i <= b.len(),
        forall|k: int| i <= k < b.len() ==> is_digit(#[trigger] b[k]),
    ensures
        skip_digits(b, i) == b.len(),
    decreases b.len() - i,
{
    if i < b.len() {
        lemma_digits_to_end(b, i + 1);
    }
}

/// A service number alone, below 0x80, is a rule with neither class nor
/// attribute.
pub proof fn lemma_service_only(digits: Seq<u8>)
    requires
        digits.len() > 0,
        forall|k: int| 0 <= k < digits.len() ==> is_digit(#[trigger] digits[k]),
        decimal(digits) < 0x80,
    ensures
        cip_service_rule(digits) == Some(
            DetectCipServiceData { service: decimal(digits) as u8, class: None, attribute: None },
        ),
{
    assert(is_digit(digits[0]));
    assert(skip_spaces(digits, 0) == 0);
    lemma_digits_to_end(digits, 0);
    assert(digits.subrange(0, digits.len() as int) =~= digits);
    assert(skip_spaces(digits, digits.len() as int) == digits.len());
}

/// Parses the rule text of the CIP service keyword.
///
/// On success the remainder is empty: the whole text is consumed.
pub fn enip_parse_cip_service(i: &str) -> (r: Result<(&str, DetectCipServiceData), CipServiceSyntaxError>)
    ensures
        r is Ok <==> cip_service_rule(i.spec_bytes()) is Some,
        r matches Ok((rest, d)) ==> rest@.len() == 0 && cip_service_rule(i.spec_bytes()) == Some(d),
{
    let b = i.as_bytes();
    let s0 = scan_spaces(b, 0);
    let (s1, service) = scan_number(b, s0);
    if s1 == s0 {
        return Err(CipServiceSyntaxError { offset: s0 });
    }
    let service = match service {
        Some(v) if v < 0x80 => v as u8,
        _ => {
            return Err(CipServiceSyntaxError { offset: s0 });
        },
    };
    let mut class: Option<u32> = None;
    let mut attribute: Option<u32> = None;
    let s2 = scan_spaces(b, s1);
    let mut end = s2;
    if s2 < b.len() && b[s2] == COMMA {
        let c0 = scan_spaces(b, s2 + 1);
        let (c1, value) = scan_number(b, c0);
        if c1 == c0 || value.is_none() {
            return Err(CipServiceSyntaxError { offset: c0 });
        }
        class = value;
        let c2 = scan_spaces(b, c1);
        end = c2;
        if c2 < b.len() && b[c2] == COMMA {
            let a0 = scan_spaces(b, c2 + 1);
            let negated = a0 < b.len() && b[a0] == BANG;
            let a1 = if negated {
                a0 + 1
            } else {
                a0
            };
            let (a2, value) = scan_number(b, a1);
            if a2 == a1 || value.is_none() {
                return Err(CipServiceSyntaxError { offset: a1 });
            }
            if !negated {
                attribute = value;
            }
            end = scan_spaces(b, a2);
        }
    }
    if end != b.len() {
        return Err(CipServiceSyntaxError { offset: end });
    }
    proof {
        reveal_strlit("");
    }
    Ok(("", DetectCipServiceData { service, class, attribute }))
}

/// Parses the rule text of the CIP service keyword into its predicate.
pub fn parse_cip_service(raw: &str) -> (r: Option<DetectCipServiceData>)
    ensures
        r == cip_service_rule(raw.spec_bytes()),
{
    match enip_parse_cip_service(raw) {
        Ok((_, d)) => Some(d),
        Err(_) => None,
    }
}

} // verus!

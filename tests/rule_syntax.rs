use enip_detect::rule::{enip_parse_cip_service, parse_cip_service, DetectCipServiceData};

#[test]
fn test_enip_parse_cip_service() {
    let buf1 = "12";
    let (remainder, csd) = enip_parse_cip_service(buf1).unwrap();
    // Check the first message.
    assert_eq!(csd.service, 12);
    assert_eq!(csd.class, None);
    assert_eq!(remainder.len(), 0);

    // with spaces and all values
    let buf2 = "12 , 123 , 45678";
    let (remainder, csd) = enip_parse_cip_service(buf2).unwrap();
    // Check the first message.
    assert_eq!(csd.service, 12);
    assert_eq!(csd.class, Some(123));
    assert_eq!(csd.attribute, Some(45678));
    assert_eq!(remainder.len(), 0);

    // too big for service
    let buf3 = "202";
    assert!(enip_parse_cip_service(buf3).is_err());

    // non numerical after comma
    let buf4 = "123,toto";
    assert!(enip_parse_cip_service(buf4).is_err());

    // too many commas/values
    let buf5 = "1,2,3,4";
    assert!(enip_parse_cip_service(buf5).is_err());

    // a negated attribute is no constraint
    let buf6 = "1,2,!3";
    let (remainder, csd) = enip_parse_cip_service(buf6).unwrap();
    // Check the first message.
    assert_eq!(csd.service, 1);
    assert_eq!(csd.class, Some(2));
    assert_eq!(csd.attribute, None);
    assert_eq!(remainder.len(), 0);
}

fn service_only(service: u8) -> Option<DetectCipServiceData> {
    Some(DetectCipServiceData { service, class: None, attribute: None })
}

#[test]
fn every_service_below_0x80_parses_alone() {
    for n in 0u32..0x80 {
        let text = format!("{}", n);
        assert_eq!(parse_cip_service(&text), service_only(n as u8));
    }
}

#[test]
fn service_0x80_and_above_is_refused() {
    assert_eq!(parse_cip_service("127"), service_only(127));
    assert_eq!(parse_cip_service("128"), None);
    assert_eq!(parse_cip_service("255"), None);
    assert_eq!(parse_cip_service("256"), None);
    assert_eq!(parse_cip_service("99999999999999999999"), None);
}

#[test]
fn spaces_and_tabs_around_tokens() {
    assert_eq!(parse_cip_service("  5  "), service_only(5));
    assert_eq!(
        parse_cip_service("\t7 ,\t8\t, 9 "),
        Some(DetectCipServiceData { service: 7, class: Some(8), attribute: Some(9) })
    );
    assert_eq!(
        parse_cip_service("1 , 2"),
        Some(DetectCipServiceData { service: 1, class: Some(2), attribute: None })
    );
    assert_eq!(
        parse_cip_service("1,2, ! 3"),
        None
    );
    assert_eq!(
        parse_cip_service("1,2, !3 "),
        Some(DetectCipServiceData { service: 1, class: Some(2), attribute: None })
    );
}

#[test]
fn leading_zeros_are_read_as_decimal() {
    assert_eq!(parse_cip_service("007"), service_only(7));
    assert_eq!(
        parse_cip_service("0000000000000000001,02,0003"),
        Some(DetectCipServiceData { service: 1, class: Some(2), attribute: Some(3) })
    );
}

#[test]
fn class_and_attribute_must_fit_u32() {
    assert_eq!(
        parse_cip_service("1,4294967295,4294967295"),
        Some(DetectCipServiceData {
            service: 1,
            class: Some(4294967295),
            attribute: Some(4294967295)
        })
    );
    assert_eq!(parse_cip_service("1,4294967296"), None);
    assert_eq!(parse_cip_service("1,2,4294967296"), None);
    assert_eq!(parse_cip_service("1,2,!4294967296"), None);
}

#[test]
fn malformed_rules_are_refused() {
    for text in ["", " ", ",", "1,", "1,,2", "1,2,", "1,2,!", "x", "1x", "1 2", "-1", "+1", "1,-2", "1;2", "1,2,3 x", "!1", "1,!2"] {
        assert!(enip_parse_cip_service(text).is_err(), "{:?} should be refused", text);
        assert_eq!(parse_cip_service(text), None);
    }
}

#[test]
fn error_names_the_offset_given_up_at() {
    assert_eq!(enip_parse_cip_service("202").unwrap_err().offset, 0);
    assert_eq!(enip_parse_cip_service("12,toto").unwrap_err().offset, 3);
    assert_eq!(enip_parse_cip_service("1,2,3,4").unwrap_err().offset, 5);
}

use cargo_metadata::bare_version::IntParseError;
use cargo_metadata::{BareVersion, BareVersionError};

#[test]
fn test_from_str() {
    assert!(matches!(
        BareVersion::from_str("1.2.3"),
        Ok(BareVersion {
            major: 1,
            minor: 2,
            patch: Some(3)
        })
    ));

    assert!(matches!(
        BareVersion::from_str("1.2"),
        Ok(BareVersion {
            major: 1,
            minor: 2,
            patch: None
        })
    ));

    assert!(matches!(
        BareVersion::from_str("1.2."),
        Err(BareVersionError::ParseInt(..))
    ));

    assert!(matches!(
        BareVersion::from_str("1."),
        Err(BareVersionError::ExpectedMinorVersion)
    ));

    assert!(matches!(
        BareVersion::from_str("1"),
        Err(BareVersionError::ExpectedMinorVersion)
    ));

    assert!(matches!(
        BareVersion::from_str(""),
        Err(BareVersionError::Empty)
    ));

    assert!(matches!(
        BareVersion::from_str(" "),
        Err(BareVersionError::ParseInt(..))
    ));
}

#[test]
fn from_str_accepts_leading_plus() {
    assert!(matches!(
        BareVersion::from_str("+1.2"),
        Ok(BareVersion {
            major: 1,
            minor: 2,
            patch: None
        })
    ));
}

#[test]
fn from_str_error_kinds() {
    assert!(matches!(
        BareVersion::from_str("1.2."),
        Err(BareVersionError::ParseInt(IntParseError::Empty))
    ));
    assert!(matches!(
        BareVersion::from_str("x.2"),
        Err(BareVersionError::ParseInt(IntParseError::InvalidDigit))
    ));
    assert!(matches!(
        BareVersion::from_str("99999999999999999999.2"),
        Err(BareVersionError::ParseInt(IntParseError::Overflow))
    ));
    assert!(matches!(
        BareVersion::from_str("1..3"),
        Err(BareVersionError::ExpectedMinorVersion)
    ));
    assert!(matches!(
        BareVersion::from_str("1.2.3.4"),
        Err(BareVersionError::ParseInt(IntParseError::InvalidDigit))
    ));
}

#[test]
fn display_round_trip() {
    let v = BareVersion {
        major: 1,
        minor: 2,
        patch: Some(3),
    };
    assert_eq!(v.display_string(), "1.2.3");
    let two = BareVersion {
        major: 10,
        minor: 205,
        patch: None,
    };
    assert_eq!(two.display_string(), "10.205");
    assert_eq!(BareVersion::from_str(&v.display_string()).unwrap(), v);
    assert_eq!(BareVersion::from_str(&two.display_string()).unwrap(), two);
}

#[test]
fn error_messages() {
    assert_eq!(BareVersionError::Empty.message(), "value is empty");
    assert_eq!(
        BareVersionError::ExpectedMinorVersion.message(),
        "expected a minor version"
    );
    assert_eq!(
        BareVersionError::ParseInt(IntParseError::Overflow).message(),
        "failed to parse integer"
    );
}

#[test]
fn error_from_int_parse_error() {
    let e = BareVersionError::from(IntParseError::Overflow);
    assert!(matches!(
        e,
        BareVersionError::ParseInt(IntParseError::Overflow)
    ));
}

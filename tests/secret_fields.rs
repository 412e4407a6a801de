use std::collections::BTreeMap;
use std::str::FromStr;

use k8s_openapi::apimachinery::pkg::apis::meta::v1::ObjectMeta;
use k8s_openapi::ByteString;
use secret_ext::{FromStrError, SecretExt};
use ulid::Ulid;

type KubeSecret = k8s_openapi::api::core::v1::Secret;

fn secret_with(entries: &[(&str, &[u8])]) -> KubeSecret {
    let mut data = BTreeMap::new();
    for (name, bytes) in entries {
        data.insert(name.to_string(), ByteString(bytes.to_vec()));
    }
    KubeSecret {
        data: Some(data),
        ..KubeSecret::default()
    }
}

#[test]
fn it_works() {
    let value = Ulid::generate();
    let mut data = BTreeMap::new();
    data.insert("test".to_owned(), ByteString(value.to_string().into_bytes()));
    let secret = KubeSecret {
        metadata: ObjectMeta {
            name: Some("test-secret".to_owned()),
            ..ObjectMeta::default()
        },
        data: Some(data),
        ..KubeSecret::default()
    };

    assert_eq!(Ulid::from_string(&secret.get_str("test").unwrap().unwrap()).unwrap(), value);
    assert_eq!(secret.get_str("test").unwrap(), Some(value.to_string()));
    assert_eq!(secret.get_from_str_with("test", Ulid::from_str).unwrap(), Some(value));

    assert_eq!(secret.get_u8("missing"), None);
    assert_eq!(secret.get_str("missing").unwrap(), None);
    assert_eq!(secret.get_from_str_with("missing", Ulid::from_str).unwrap(), None);
}

#[test]
fn no_data_section_reads_absent() {
    let secret = KubeSecret::default();
    for field in ["", "test", "password"] {
        assert_eq!(secret.get_u8(field), None);
        assert_eq!(secret.get_str(field).unwrap(), None);
        assert!(matches!(secret.get_from_str_with(field, u32::from_str), Ok(None)));
    }
}

#[test]
fn missing_field_reads_absent() {
    let secret = secret_with(&[("user", b"admin"), ("ab", b"1")]);
    for field in ["password", "a", "abc", "User", ""] {
        assert_eq!(secret.get_u8(field), None);
        assert_eq!(secret.get_str(field).unwrap(), None);
        assert!(matches!(secret.get_from_str_with(field, u32::from_str), Ok(None)));
    }
}

#[test]
fn empty_data_section_reads_absent() {
    let secret = secret_with(&[]);
    assert_eq!(secret.get_u8("user"), None);
    assert_eq!(secret.get_str("user").unwrap(), None);
}

#[test]
fn bytes_are_returned_as_stored() {
    let payload: &[u8] = &[0, 1, 0xff, 0x80, b'x'];
    let secret = secret_with(&[("blob", payload), ("user", b"admin")]);
    assert_eq!(secret.get_u8("blob").map(|v| v.as_slice()), Some(payload));
    assert_eq!(secret.get_u8("user").map(|v| v.as_slice()), Some(&b"admin"[..]));
}

#[test]
fn valid_utf8_reads_as_exact_text() {
    let text = "héllo ✓ 🦀 \u{0} end";
    let secret = secret_with(&[("greeting", text.as_bytes()), ("user", b"admin")]);
    assert_eq!(secret.get_str("greeting").unwrap(), Some(text.to_string()));
    assert_eq!(secret.get_str("user").unwrap(), Some("admin".to_string()));
}

#[test]
fn empty_payload_is_present() {
    let secret = secret_with(&[("empty", b"")]);
    assert_eq!(secret.get_u8("empty"), Some(&Vec::new()));
    assert_eq!(secret.get_str("empty").unwrap(), Some(String::new()));
    assert!(matches!(
        secret.get_from_str_with("empty", u32::from_str),
        Err(FromStrError::FromStr(_))
    ));
}

#[test]
fn invalid_utf8_is_decoding_error() {
    let payloads: [&[u8]; 4] = [
        &[0xff, 0xfe],
        &[0xc0, 0x80],
        &[0xed, 0xa0, 0x80],
        &[b'o', b'k', 0xe2, 0x9c],
    ];
    for payload in payloads {
        let secret = secret_with(&[("bad", payload)]);
        assert!(secret.get_str("bad").is_err());
        assert!(matches!(
            secret.get_from_str_with("bad", u32::from_str),
            Err(FromStrError::FromUtf8(_))
        ));
    }
}

#[test]
fn parse_gives_value() {
    let secret = secret_with(&[("port", b"8080"), ("offset", b"-7"), ("flag", b"true")]);
    assert_eq!(secret.get_from_str_with("port", u16::from_str).unwrap(), Some(8080));
    assert_eq!(secret.get_from_str_with("offset", i64::from_str).unwrap(), Some(-7));
    assert_eq!(secret.get_from_str_with("flag", bool::from_str).unwrap(), Some(true));
}

#[test]
fn parse_failure_keeps_parser_error() {
    let secret = secret_with(&[("port", b"eighty"), ("big", b"70000")]);
    match secret.get_from_str_with("port", u16::from_str) {
        Err(FromStrError::FromStr(e)) => assert_eq!(e, u16::from_str("eighty").unwrap_err()),
        other => panic!("expected a parse failure, got {:?}", other),
    }
    assert!(matches!(
        secret.get_from_str_with("big", u16::from_str),
        Err(FromStrError::FromStr(_))
    ));
}

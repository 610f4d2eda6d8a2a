use cuda_trace::render::{render_enum, render_value, write_handle};
use cuda_trace::value::{is_renderable, EnumValue, EnumVariant, Field, UnionValue, Value};

fn rendered(v: &Value) -> Vec<u8> {
    let mut out: Vec<u8> = Vec::new();
    render_value(v, &mut out);
    out
}

#[test]
fn guid_formats_correctly() {
    let guid = Value::Guid(vec![
        0x01, 0x02, 0x03, 0x04, 0x05, 0x06, 0x07, 0x08, 0x09, 0x0a, 0x0b, 0x0c, 0x0d, 0x0e, 0x0f,
        0x10,
    ]);
    let out = rendered(&guid);
    assert_eq!(
        String::from_utf8(out).unwrap(),
        "{04030201-0605-0807-090a-0b0c0d0e0f10}"
    );
}

#[test]
fn null_pointer_renders_null() {
    assert_eq!(rendered(&Value::Pointer(None)), b"NULL".to_vec());
    assert_eq!(rendered(&Value::Chars(None)), b"NULL".to_vec());
}

#[test]
fn pointer_renders_its_pointee() {
    let pointee = Value::Unsigned(7);
    let direct = rendered(&Value::Unsigned(7));
    let through_pointer = rendered(&Value::Pointer(Some(Box::new(pointee))));
    assert_eq!(direct, through_pointer);
    let nested = Value::Pointer(Some(Box::new(Value::Pointer(Some(Box::new(
        Value::Signed(-3),
    ))))));
    assert_eq!(rendered(&nested), b"-3".to_vec());
}

#[test]
fn scalars_render_in_decimal() {
    assert_eq!(rendered(&Value::Unsigned(0)), b"0".to_vec());
    assert_eq!(rendered(&Value::Unsigned(12345)), b"12345".to_vec());
    assert_eq!(rendered(&Value::Unsigned(u64::MAX)), b"18446744073709551615".to_vec());
    assert_eq!(rendered(&Value::Signed(-5)), b"-5".to_vec());
    assert_eq!(rendered(&Value::Signed(i64::MIN)), b"-9223372036854775808".to_vec());
}

#[test]
fn addresses_render_in_hex() {
    assert_eq!(rendered(&Value::Address(0)), b"0x0".to_vec());
    assert_eq!(rendered(&Value::Address(0xdeadbeef)), b"0xdeadbeef".to_vec());
}

#[test]
fn handle_renders_as_reversed_hex() {
    let mut bytes = vec![0u8; 64];
    bytes[0] = 0xaa;
    let out = rendered(&Value::Handle(bytes));
    assert_eq!(out.len(), 130);
    let text = String::from_utf8(out).unwrap();
    assert!(text.starts_with("0x"));
    let mut expected = String::from("0x");
    for _ in 0..63 {
        expected.push_str("00");
    }
    expected.push_str("aa");
    assert_eq!(text, expected);
}

#[test]
fn write_handle_matches_render() {
    let bytes = vec![0x12u8, 0x34u8];
    let mut out: Vec<u8> = Vec::new();
    write_handle(&mut out, &bytes);
    assert_eq!(out, b"0x3412".to_vec());
}

#[test]
fn rendering_is_idempotent() {
    let value = Value::Struct(vec![
        Field {
            name: b"x".to_vec(),
            reserved: false,
            value: Value::Unsigned(1),
        },
        Field {
            name: b"y".to_vec(),
            reserved: false,
            value: Value::Address(0x40),
        },
    ]);
    let first = rendered(&value);
    let second = rendered(&value);
    assert_eq!(first, second);
}

#[test]
fn struct_skips_reserved_fields() {
    let value = Value::Struct(vec![
        Field {
            name: b"a".to_vec(),
            reserved: false,
            value: Value::Unsigned(1),
        },
        Field {
            name: b"reserved0".to_vec(),
            reserved: true,
            value: Value::Unsigned(99),
        },
        Field {
            name: b"b".to_vec(),
            reserved: false,
            value: Value::Unsigned(2),
        },
    ]);
    assert_eq!(rendered(&value), b"{ a: 1, b: 2 }".to_vec());
}

#[test]
fn enum_renders_symbolic_name_or_number() {
    let e = EnumValue {
        variants: vec![
            EnumVariant {
                name: b"CU_CTX_SCHED_SPIN".to_vec(),
                value: 1,
            },
            EnumVariant {
                name: b"CU_CTX_SCHED_YIELD".to_vec(),
                value: 2,
            },
        ],
        raw: 2,
    };
    let mut out: Vec<u8> = Vec::new();
    render_enum(&e, &mut out);
    assert_eq!(out, b"CU_CTX_SCHED_YIELD".to_vec());

    let unknown = EnumValue {
        variants: e.variants,
        raw: 77,
    };
    let mut out2: Vec<u8> = Vec::new();
    render_enum(&unknown, &mut out2);
    assert_eq!(out2, b"77".to_vec());
}

#[test]
fn chars_render_quoted_with_lossy_decoding() {
    assert_eq!(
        rendered(&Value::Chars(Some(b"hello".to_vec()))),
        b"\"hello\"".to_vec()
    );
    // An invalid UTF-8 byte is replaced, not passed through.
    let out = rendered(&Value::Chars(Some(vec![0x68, 0xff, 0x69])));
    let text = String::from_utf8(out).unwrap();
    assert_eq!(text, "\"h\u{fffd}i\"");
}

#[test]
fn wide_chars_decode_from_utf16() {
    let units: Vec<u16> = "temp".encode_utf16().collect();
    assert_eq!(rendered(&Value::Wide(Some(units))), b"\"temp\"".to_vec());
    // An unpaired surrogate is replaced, not dropped.
    let out = rendered(&Value::Wide(Some(vec![0x68, 0xd800])));
    assert_eq!(String::from_utf8(out).unwrap(), "\"h\u{fffd}\"");
}

#[test]
fn luid_renders_uppercase_pair() {
    assert_eq!(
        rendered(&Value::Luid(0xdeadbeef, 0x00000042)),
        b"{DEADBEEF-00000042}".to_vec()
    );
}

#[test]
fn array_renders_bracketed_list() {
    let value = Value::Array(vec![
        Value::Unsigned(1),
        Value::Unsigned(2),
        Value::Unsigned(3),
    ]);
    assert_eq!(rendered(&value), b"[1, 2, 3]".to_vec());
    assert_eq!(rendered(&Value::Array(vec![])), b"[]".to_vec());
}

fn tag(raw: u64) -> EnumValue {
    EnumValue {
        variants: vec![EnumVariant {
            name: b"T1".to_vec(),
            value: 1,
        }],
        raw,
    }
}

#[test]
fn union_with_registered_tag_renders_member_fields() {
    let u = Value::Union(UnionValue {
        tag_name: b"kind".to_vec(),
        tag: tag(1),
        selected: Some(vec![
            Field {
                name: b"a".to_vec(),
                reserved: false,
                value: Value::Unsigned(10),
            },
            Field {
                name: b"b".to_vec(),
                reserved: false,
                value: Value::Unsigned(20),
            },
        ]),
        common: vec![],
    });
    assert_eq!(rendered(&u), b"{ kind: T1, a: 10, b: 20 }".to_vec());
}

#[test]
fn union_with_unregistered_tag_renders_partial_form() {
    let u = Value::Union(UnionValue {
        tag_name: b"kind".to_vec(),
        tag: tag(9),
        selected: None,
        common: vec![Field {
            name: b"flags".to_vec(),
            reserved: false,
            value: Value::Unsigned(4),
        }],
    });
    let out = rendered(&u);
    let text = String::from_utf8(out).unwrap();
    assert_eq!(text, "{ kind: 9, flags: 4, ... }");
    assert!(text.ends_with(", ... }"));
    assert!(!text.contains("a:"));
}

#[test]
fn unsupported_values_are_detected() {
    assert!(!is_renderable(&Value::Unsupported));
    let nested = Value::Struct(vec![Field {
        name: b"inner".to_vec(),
        reserved: false,
        value: Value::Unsupported,
    }]);
    assert!(!is_renderable(&nested));
    let reserved_only = Value::Struct(vec![Field {
        name: b"reserved".to_vec(),
        reserved: true,
        value: Value::Unsupported,
    }]);
    assert!(is_renderable(&reserved_only));
}

#[test]
fn verbatim_passes_through() {
    assert_eq!(rendered(&Value::Verbatim(b"1.5".to_vec())), b"1.5".to_vec());
}

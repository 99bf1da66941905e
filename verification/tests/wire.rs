use nvim_redraw::convert::{expect_i64, expect_items, expect_optional_text, expect_text};
use nvim_redraw::dispatch::{dispatch, Dispatch};
use nvim_redraw::event::{CmdlineShowEvent, RedrawEvent};
use nvim_redraw::fault::{DecodeFault, FaultDetail, Field, Found};
use nvim_redraw::value::{Value, ValueKind};

/// The library's value for one that the message-pack crate has read.
fn from_wire(value: &rmpv::Value) -> Value {
    match value {
        rmpv::Value::Nil => Value::Nil,
        rmpv::Value::Boolean(b) => Value::Bool(*b),
        rmpv::Value::Integer(n) => match (n.as_i64(), n.as_u64()) {
            (Some(n), _) => Value::Int(i128::from(n)),
            (None, Some(n)) => Value::Int(i128::from(n)),
            (None, None) => unreachable!("an integer of the wire fits one of the two"),
        },
        rmpv::Value::F32(x) => Value::Float(f64::from(*x).to_bits()),
        rmpv::Value::F64(x) => Value::Float(x.to_bits()),
        rmpv::Value::String(s) => match s.as_str() {
            Some(s) => Value::Str(s.to_string()),
            None => Value::Bin(s.as_bytes().to_vec()),
        },
        rmpv::Value::Binary(bytes) => Value::Bin(bytes.clone()),
        rmpv::Value::Array(items) => Value::Array(items.iter().map(from_wire).collect()),
        rmpv::Value::Map(pairs) => Value::Mapping(
            pairs
                .iter()
                .map(|(key, value)| (from_wire(key), from_wire(value)))
                .collect(),
        ),
        rmpv::Value::Ext(tag, bytes) => Value::Ext(*tag, bytes.clone()),
    }
}

/// What the message-pack crate reads from the bytes that it wrote for a value.
fn through_the_wire(value: &rmpv::Value) -> rmpv::Value {
    let mut bytes: Vec<u8> = Vec::new();
    rmpv::encode::write_value(&mut bytes, value).unwrap();
    rmpv::decode::read_value(&mut bytes.as_slice()).unwrap()
}

fn samples() -> Vec<rmpv::Value> {
    vec![
        rmpv::Value::Nil,
        rmpv::Value::Boolean(false),
        rmpv::Value::from(0),
        rmpv::Value::from(-1),
        rmpv::Value::from(i64::MIN),
        rmpv::Value::from(i64::MAX),
        rmpv::Value::from(i64::MAX as u64 + 1),
        rmpv::Value::from(u64::MAX),
        rmpv::Value::F32(1.5),
        rmpv::Value::F64(-0.25),
        rmpv::Value::from(""),
        rmpv::Value::from(":"),
        rmpv::Value::from("caf\u{e9}"),
        rmpv::Value::Binary(vec![58]),
        rmpv::Value::Array(vec![]),
        rmpv::Value::Array(vec![rmpv::Value::from(1), rmpv::Value::from("x")]),
        rmpv::Value::Map(vec![(rmpv::Value::from("k"), rmpv::Value::Nil)]),
        rmpv::Value::Ext(4, vec![1, 2]),
    ]
}

#[test]
fn integers_are_read_as_the_wire_crate_reads_them() {
    for wire in samples() {
        let fields = vec![from_wire(&through_the_wire(&wire))];
        assert_eq!(expect_i64(&fields, 0, Field::Pos).ok(), wire.as_i64());
    }
}

#[test]
fn strings_are_read_as_the_wire_crate_reads_them() {
    for wire in samples() {
        let fields = vec![from_wire(&through_the_wire(&wire))];
        assert_eq!(
            expect_text(&fields, 0, Field::Prompt).ok(),
            wire.as_str().map(|s| s.to_string())
        );
        let optional = expect_optional_text(&fields, 0, Field::Firstc);
        if wire.is_nil() {
            assert_eq!(optional, Ok(None));
        } else if let Some(s) = wire.as_str() {
            assert_eq!(optional, Ok(Some(s.to_string())));
        } else {
            assert!(optional.is_err());
        }
    }
}

#[test]
fn arrays_are_read_as_the_wire_crate_reads_them() {
    for wire in samples() {
        let fields = vec![from_wire(&through_the_wire(&wire))];
        let items = expect_items(&fields, 0, Field::Content).ok().cloned();
        let expected: Option<Vec<Value>> = wire
            .as_array()
            .map(|items| items.iter().map(from_wire).collect());
        assert_eq!(items, expected);
    }
}

#[test]
fn a_string_that_is_no_text_is_no_first_character() {
    let bytes: Vec<u8> = vec![0xa2, 0xc3, 0x28];
    let wire = rmpv::decode::read_value(&mut bytes.as_slice()).unwrap();
    assert!(matches!(wire, rmpv::Value::String(_)));
    assert_eq!(wire.as_str(), None);
    let fields = vec![from_wire(&wire)];
    assert_eq!(fields[0].kind(), ValueKind::Bin);
    assert_eq!(
        expect_optional_text(&fields, 0, Field::Firstc),
        Err(FaultDetail {
            field: Field::Firstc,
            found: Found::Kind(ValueKind::Bin),
        })
    );
}

#[test]
fn a_notification_read_from_bytes_is_dispatched() {
    // ["cmdline_show", [[[0, "abc"]], 3, ":", "", 0, 0], [[[0, "abc"]], 3, nil, "", 0, 0]]
    let bytes: Vec<u8> = vec![
        0x93, 0xac, b'c', b'm', b'd', b'l', b'i', b'n', b'e', b'_', b's', b'h', b'o', b'w',
        0x96, 0x91, 0x92, 0x00, 0xa3, b'a', b'b', b'c', 0x03, 0xa1, b':', 0xa0, 0x00, 0x00,
        0x96, 0x91, 0x92, 0x00, 0xa3, b'a', b'b', b'c', 0x03, 0xc0, 0xa0, 0x00, 0x00,
    ];
    let batch = rmpv::decode::read_value(&mut bytes.as_slice()).unwrap();
    let args = vec![from_wire(&batch)];
    let event = CmdlineShowEvent {
        content: vec![(0, "abc".to_string())],
        pos: 3,
        firstc: Some(":".to_string()),
        prompt: String::new(),
        indent: 0,
        level: 0,
    };
    assert_eq!(
        dispatch("redraw", &args),
        Dispatch::Redraw {
            events: vec![
                RedrawEvent::CmdlineShow(event.clone()),
                RedrawEvent::CmdlineShow(CmdlineShowEvent {
                    firstc: None,
                    ..event
                }),
            ],
            fault: None,
        }
    );
}

#[test]
fn a_first_character_sent_as_a_number_is_a_fault() {
    let occurrence = rmpv::Value::Array(vec![
        rmpv::Value::Array(vec![rmpv::Value::Array(vec![
            rmpv::Value::from(0),
            rmpv::Value::from("abc"),
        ])]),
        rmpv::Value::from(3),
        rmpv::Value::from(58),
        rmpv::Value::from(""),
        rmpv::Value::from(0),
        rmpv::Value::from(0),
    ]);
    let batch = rmpv::Value::Array(vec![rmpv::Value::from("cmdline_show"), occurrence]);
    let args = vec![from_wire(&through_the_wire(&batch))];
    assert_eq!(
        dispatch("redraw", &args),
        Dispatch::Redraw {
            events: vec![],
            fault: Some(DecodeFault::MalformedOccurrence {
                kind: "cmdline_show".to_string(),
                detail: FaultDetail {
                    field: Field::Firstc,
                    found: Found::Kind(ValueKind::Int),
                },
            }),
        }
    );
}

#[test]
fn events_laid_out_as_fields_survive_the_wire() {
    let event = CmdlineShowEvent {
        content: vec![(3, "se".to_string()), (0, "t".to_string())],
        pos: 2,
        firstc: Some("/".to_string()),
        prompt: "find".to_string(),
        indent: 2,
        level: 1,
    };
    let fields = event.to_fields();
    let wire = rmpv::Value::Array(fields.iter().map(to_wire).collect());
    let back = match from_wire(&through_the_wire(&wire)) {
        Value::Array(fields) => fields,
        other => panic!("unexpected value {:?}", other),
    };
    assert_eq!(back, fields);
    assert_eq!(nvim_redraw::cmdline_show::extract(&back), Ok(event));
}

/// The message-pack value for one of the library's.
fn to_wire(value: &Value) -> rmpv::Value {
    match value {
        Value::Nil => rmpv::Value::Nil,
        Value::Bool(b) => rmpv::Value::Boolean(*b),
        Value::Int(n) => match (i64::try_from(*n), u64::try_from(*n)) {
            (Ok(n), _) => rmpv::Value::from(n),
            (_, Ok(n)) => rmpv::Value::from(n),
            _ => panic!("{} is no integer of the wire", n),
        },
        Value::Float(bits) => rmpv::Value::F64(f64::from_bits(*bits)),
        Value::Str(s) => rmpv::Value::from(s.as_str()),
        Value::Bin(bytes) => rmpv::Value::Binary(bytes.clone()),
        Value::Array(items) => rmpv::Value::Array(items.iter().map(to_wire).collect()),
        Value::Mapping(pairs) => rmpv::Value::Map(
            pairs
                .iter()
                .map(|(key, value)| (to_wire(key), to_wire(value)))
                .collect(),
        ),
        Value::Ext(tag, bytes) => rmpv::Value::Ext(*tag, bytes.clone()),
    }
}

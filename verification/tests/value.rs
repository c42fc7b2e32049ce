use rustirc::value::{Field, HandlerRef, Value, ValueKind};

fn nested() -> Value {
    Value::Table(vec![
        Field { key: b"name".to_vec(), value: Value::Bytes(b"outer".to_vec()) },
        Field {
            key: b"inner".to_vec(),
            value: Value::Table(vec![
                Field { key: b"flag".to_vec(), value: Value::Boolean(true) },
                Field {
                    key: b"deep".to_vec(),
                    value: Value::Table(vec![Field {
                        key: b"callback".to_vec(),
                        value: Value::Function(HandlerRef { id: 4 }),
                    }]),
                },
                Field { key: b"nothing".to_vec(), value: Value::Nil },
            ]),
        },
        Field { key: b"handle".to_vec(), value: Value::Opaque },
    ])
}

#[test]
fn a_deep_copy_equals_its_source() {
    for value in [
        Value::Nil,
        Value::Boolean(false),
        Value::Bytes(b"\x00bytes\xff".to_vec()),
        Value::Function(HandlerRef { id: 11 }),
        Value::Table(vec![]),
        Value::Opaque,
        nested(),
    ] {
        assert_eq!(value.deep_copy(), value);
    }
}

#[test]
fn a_change_to_a_deep_copy_leaves_its_source_alone() {
    let source = nested();
    let mut copy = source.deep_copy();
    if let Value::Table(fields) = &mut copy {
        if let Value::Table(inner) = &mut fields[1].value {
            inner[0].value = Value::Boolean(false);
            if let Value::Table(deep) = &mut inner[1].value {
                deep.push(Field { key: b"more".to_vec(), value: Value::Nil });
            }
        }
        fields.remove(0);
    }
    assert_ne!(copy, source);
    assert_eq!(source, nested());
}

#[test]
fn every_value_has_its_kind() {
    assert_eq!(Value::Nil.kind(), ValueKind::Nil);
    assert_eq!(Value::Boolean(true).kind(), ValueKind::Boolean);
    assert_eq!(Value::Bytes(Vec::new()).kind(), ValueKind::Bytes);
    assert_eq!(Value::Function(HandlerRef { id: 0 }).kind(), ValueKind::Function);
    assert_eq!(Value::Table(Vec::new()).kind(), ValueKind::Table);
    assert_eq!(Value::Opaque.kind(), ValueKind::Opaque);
}

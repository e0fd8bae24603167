use type_reg::{BoxDt, DecodeError, Datum, RawValue, TypeKind, TypeMap, TypeReg};

fn key(s: &str) -> String {
    String::from(s)
}

fn raw_entries(es: &[(&str, RawValue)]) -> Vec<(String, RawValue)> {
    let mut v = Vec::new();
    for (k, r) in es {
        let r2 = match r {
            RawValue::Bool(b) => RawValue::Bool(*b),
            RawValue::Unsigned(n) => RawValue::Unsigned(*n),
            RawValue::Signed(n) => RawValue::Signed(*n),
            RawValue::Char(c) => RawValue::Char(*c),
            RawValue::Str(s) => RawValue::Str(s.clone()),
        };
        v.push((key(k), r2));
    }
    v
}

#[test]
fn decodes_one_u32_and_two_u64() {
    let mut reg = TypeReg::new();
    reg.register::<u32>(key("one"));
    reg.register::<u64>(key("two"));
    let es = raw_entries(&[("one", RawValue::Unsigned(1)), ("two", RawValue::Unsigned(2))]);
    let m = reg.deserialize_entries(&es).unwrap();
    assert_eq!(m.get::<u32>(&key("one")).copied(), Some(1));
    assert_eq!(m.get::<u64>(&key("two")).copied(), Some(2));
    assert_eq!(m.get::<u64>(&key("one")), None);
}

#[test]
fn unknown_key_fails() {
    let mut reg = TypeReg::new();
    reg.register::<u32>(key("one"));
    let es = raw_entries(&[("one", RawValue::Unsigned(1)), ("three", RawValue::Unsigned(3))]);
    match reg.deserialize_entries(&es) {
        Err(DecodeError::UnknownKey { key: k }) => assert_eq!(k, "three"),
        other => panic!("unexpected {:?}", other),
    }
}

#[test]
fn resolve_unknown_key() {
    let reg = TypeReg::new();
    assert!(matches!(reg.resolve(&key("x")), Err(DecodeError::UnknownKey { .. })));
    assert_eq!(reg.lookup(&key("x")), None);
}

#[test]
fn value_out_of_range_fails() {
    let mut reg = TypeReg::new();
    reg.register::<u8>(key("small"));
    let es = raw_entries(&[("small", RawValue::Unsigned(300))]);
    match reg.deserialize_entries(&es) {
        Err(DecodeError::ValueDecode { key: k, expected, .. }) => {
            assert_eq!(k, "small");
            assert_eq!(expected, TypeKind::U8);
            assert_eq!(expected.name(), "u8");
        }
        other => panic!("unexpected {:?}", other),
    }
}

#[test]
fn negative_for_unsigned_fails() {
    let mut reg = TypeReg::new();
    reg.register::<u32>(key("n"));
    let es = raw_entries(&[("n", RawValue::Signed(-1))]);
    assert!(matches!(reg.deserialize_entries(&es), Err(DecodeError::ValueDecode { .. })));
}

#[test]
fn integer_sign_classes_cross_when_in_range() {
    let mut reg = TypeReg::new();
    reg.register::<i8>(key("a"));
    reg.register::<u16>(key("b"));
    reg.register::<i64>(key("c"));
    reg.register::<u64>(key("d"));
    let es = raw_entries(&[
        ("a", RawValue::Unsigned(127)),
        ("b", RawValue::Signed(65535)),
        ("c", RawValue::Signed(-9)),
        ("d", RawValue::Unsigned(u64::MAX)),
    ]);
    let m = reg.deserialize_entries(&es).unwrap();
    assert_eq!(m.get::<i8>(&key("a")).copied(), Some(127));
    assert_eq!(m.get::<u16>(&key("b")).copied(), Some(65535));
    assert_eq!(m.get::<i64>(&key("c")).copied(), Some(-9));
    assert_eq!(m.get::<u64>(&key("d")).copied(), Some(u64::MAX));
}

#[test]
fn i8_above_range_fails() {
    let mut reg = TypeReg::new();
    reg.register::<i8>(key("a"));
    let es = raw_entries(&[("a", RawValue::Unsigned(128))]);
    assert!(matches!(reg.deserialize_entries(&es), Err(DecodeError::ValueDecode { .. })));
}

#[test]
fn bool_from_integer_fails() {
    let mut reg = TypeReg::new();
    reg.register::<bool>(key("flag"));
    let es = raw_entries(&[("flag", RawValue::Unsigned(1))]);
    assert!(matches!(reg.deserialize_entries(&es), Err(DecodeError::ValueDecode { .. })));
    let es = raw_entries(&[("flag", RawValue::Bool(true))]);
    let m = reg.deserialize_entries(&es).unwrap();
    assert_eq!(m.get::<bool>(&key("flag")).copied(), Some(true));
}

#[test]
fn char_and_string_convert() {
    let mut reg = TypeReg::new();
    reg.register::<char>(key("c"));
    reg.register::<String>(key("s"));
    let es = raw_entries(&[("c", RawValue::Str(key("x"))), ("s", RawValue::Char('y'))]);
    let m = reg.deserialize_entries(&es).unwrap();
    assert_eq!(m.get::<char>(&key("c")).copied(), Some('x'));
    assert_eq!(m.get::<String>(&key("s")).cloned(), Some(key("y")));
    let es = raw_entries(&[("c", RawValue::Str(key("xy")))]);
    assert!(matches!(reg.deserialize_entries(&es), Err(DecodeError::ValueDecode { .. })));
    let es = raw_entries(&[("s", RawValue::Unsigned(5))]);
    assert!(matches!(reg.deserialize_entries(&es), Err(DecodeError::ValueDecode { .. })));
}

#[test]
fn bad_value_before_unknown_key_is_reported_first() {
    let mut reg = TypeReg::new();
    reg.register::<u8>(key("a"));
    let es = raw_entries(&[("a", RawValue::Str(key("no"))), ("zzz", RawValue::Unsigned(1))]);
    match reg.deserialize_entries(&es) {
        Err(e) => {
            assert!(matches!(e, DecodeError::ValueDecode { .. }));
            assert_eq!(e.key(), "a");
        }
        Ok(_) => panic!("expected an error"),
    }
}

#[test]
fn get_with_other_type_is_absent() {
    let mut m = TypeMap::new();
    m.insert(key("k"), 5u32);
    assert_eq!(m.get::<u64>(&key("k")), None);
    assert_eq!(m.get::<String>(&key("k")), None);
    assert_eq!(m.get::<u32>(&key("k")).copied(), Some(5));
    assert_eq!(m.get::<u32>(&key("missing")), None);
}

#[test]
fn second_insert_replaces_first() {
    let mut m = TypeMap::new();
    m.insert(key("a"), 1u8);
    m.insert(key("k"), 1u32);
    m.insert(key("k"), key("two"));
    assert_eq!(m.len(), 2);
    assert_eq!(m.get::<u32>(&key("k")), None);
    assert_eq!(m.get::<String>(&key("k")).cloned(), Some(key("two")));
    assert_eq!(m.keys(), vec![key("a"), key("k")]);
}

#[test]
fn decode_keeps_encounter_order() {
    let mut reg = TypeReg::new();
    reg.register::<u32>(key("a"));
    reg.register::<u32>(key("b"));
    reg.register::<u32>(key("c"));
    let es = raw_entries(&[
        ("a", RawValue::Unsigned(1)),
        ("c", RawValue::Unsigned(3)),
        ("b", RawValue::Unsigned(2)),
    ]);
    let m = reg.deserialize_entries(&es).unwrap();
    assert_eq!(m.keys(), vec![key("a"), key("c"), key("b")]);
}

#[test]
fn round_trip_through_untyped_values() {
    let mut m = TypeMap::new();
    m.insert(key("n"), -7i16);
    m.insert(key("u"), 40000u32);
    m.insert(key("t"), key("text"));
    m.insert(key("f"), false);
    m.insert(key("c"), 'q');
    let mut reg = TypeReg::new();
    reg.register::<bool>(key("f"));
    reg.register::<i16>(key("n"));
    reg.register::<char>(key("c"));
    reg.register::<String>(key("t"));
    reg.register::<u32>(key("u"));
    let written = m.serialize_entries();
    let mut read = Vec::new();
    for (k, d) in &written {
        read.push((k.clone(), RawValue::from_datum(d)));
    }
    let m2 = reg.deserialize_entries(&read).unwrap();
    assert_eq!(m2.keys(), m.keys());
    assert_eq!(m2.get::<i16>(&key("n")), m.get::<i16>(&key("n")));
    assert_eq!(m2.get::<u32>(&key("u")), m.get::<u32>(&key("u")));
    assert_eq!(m2.get::<String>(&key("t")), m.get::<String>(&key("t")));
    assert_eq!(m2.get::<bool>(&key("f")), m.get::<bool>(&key("f")));
    assert_eq!(m2.get::<char>(&key("c")), m.get::<char>(&key("c")));
}

#[test]
fn serialize_entries_writes_bare_values_in_order() {
    let mut m = TypeMap::new();
    m.insert(key("one"), 1u32);
    m.insert(key("two"), 2u64);
    let w = m.serialize_entries();
    assert_eq!(w.len(), 2);
    assert_eq!(w[0].0, "one");
    assert!(matches!(w[0].1, Datum::U32(1)));
    assert_eq!(w[1].0, "two");
    assert!(matches!(w[1].1, Datum::U64(2)));
}

#[test]
fn remove_keeps_order_of_the_rest() {
    let mut m = TypeMap::new();
    m.insert(key("a"), 1u8);
    m.insert(key("b"), 2u8);
    m.insert(key("c"), 3u8);
    let b = m.remove(&key("b")).unwrap();
    assert_eq!(b.downcast_ref::<u8>().copied(), Some(2));
    assert!(m.remove(&key("b")).is_none());
    assert!(!m.contains_key(&key("b")));
    assert_eq!(m.keys(), vec![key("a"), key("c")]);
    assert!(!m.is_empty());
}

#[test]
fn box_dt_downcasts() {
    let mut b = BoxDt::new(10u64);
    assert_eq!(b.kind(), TypeKind::U64);
    assert_eq!(b.kind_name(), "u64");
    assert_eq!(b.downcast_ref::<u32>(), None);
    assert!(b.downcast_mut::<i64>().is_none());
    *b.downcast_mut::<u64>().unwrap() = 11;
    assert_eq!(b.downcast_ref::<u64>().copied(), Some(11));
}

#[test]
fn box_dt_clone_is_independent() {
    let b = BoxDt::new(key("s"));
    let mut c = b.clone();
    c.downcast_mut::<String>().unwrap().push('!');
    assert_eq!(b.downcast_ref::<String>().cloned(), Some(key("s")));
    assert_eq!(c.downcast_ref::<String>().cloned(), Some(key("s!")));
    assert_eq!(c.kind_name(), "String");
}

#[test]
fn reregistering_replaces_type() {
    let mut reg = TypeReg::new();
    reg.register::<u32>(key("k"));
    reg.register::<String>(key("k"));
    assert_eq!(reg.len(), 1);
    assert_eq!(reg.lookup(&key("k")), Some(TypeKind::Str));
}

#[test]
fn deserialize_entry_steps() {
    let mut reg = TypeReg::new();
    reg.register::<i32>(key("x"));
    let mut m = TypeMap::new();
    reg.deserialize_entry(&mut m, key("x"), &RawValue::Signed(-3)).unwrap();
    assert_eq!(m.get::<i32>(&key("x")).copied(), Some(-3));
    assert!(reg.deserialize_entry(&mut m, key("y"), &RawValue::Signed(1)).is_err());
    assert_eq!(m.len(), 1);
    let (k, v) = m.get_index(0).unwrap();
    assert_eq!(k, "x");
    assert_eq!(v.downcast_ref::<i32>().copied(), Some(-3));
    assert!(m.get_index(1).is_none());
    let m2 = m.clone();
    assert_eq!(m2.get::<i32>(&key("x")).copied(), Some(-3));
}

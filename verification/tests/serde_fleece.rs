use couchbase_lite::fleece::{FlNumber, FlValue};
use couchbase_lite::fleece_de::{Deserializer, DictKeySerializer, EnumStart};
use couchbase_lite::fleece_dict::MutableDict;
use couchbase_lite::fleece_encoder::{encode_into, FlEncoder, FlEncoderSession};
use couchbase_lite::fleece_ser::{serialize, EncoderOp, SerdeValue};

// ---- helpers: what a Fleece document written with these calls holds, and its JSON form ----

fn int_number(i: i64) -> FlNumber {
    FlNumber {
        is_integer: true,
        is_unsigned: false,
        is_double: false,
        as_int: i,
        as_unsigned: i as u64,
        float_bits: (i as f32).to_bits(),
        double_bits: (i as f64).to_bits(),
    }
}

fn uint_number(u: u64) -> FlNumber {
    FlNumber {
        is_integer: true,
        is_unsigned: u > i64::MAX as u64,
        is_double: false,
        as_int: u as i64,
        as_unsigned: u,
        float_bits: (u as f32).to_bits(),
        double_bits: (u as f64).to_bits(),
    }
}

fn f32_number(bits: u32) -> FlNumber {
    let f = f32::from_bits(bits);
    FlNumber {
        is_integer: false,
        is_unsigned: false,
        is_double: false,
        as_int: f as i64,
        as_unsigned: f as u64,
        float_bits: bits,
        double_bits: (f as f64).to_bits(),
    }
}

fn f64_number(bits: u64) -> FlNumber {
    let f = f64::from_bits(bits);
    FlNumber {
        is_integer: false,
        is_unsigned: false,
        is_double: true,
        as_int: f as i64,
        as_unsigned: f as u64,
        float_bits: (f as f32).to_bits(),
        double_bits: bits,
    }
}

fn read_value(ops: &[EncoderOp], pos: &mut usize) -> FlValue {
    let op = &ops[*pos];
    *pos += 1;
    match op {
        EncoderOp::WriteNull => FlValue::Null,
        EncoderOp::WriteBool(b) => FlValue::Bool(*b),
        EncoderOp::WriteInt(i) => FlValue::Number(int_number(*i)),
        EncoderOp::WriteUInt(u) => FlValue::Number(uint_number(*u)),
        EncoderOp::WriteFloat(b) => FlValue::Number(f32_number(*b)),
        EncoderOp::WriteDouble(b) => FlValue::Number(f64_number(*b)),
        EncoderOp::WriteString(s) => FlValue::String(s.clone()),
        EncoderOp::BeginArray(_) => {
            let mut items = Vec::new();
            while ops[*pos] != EncoderOp::EndArray {
                items.push(read_value(ops, pos));
            }
            *pos += 1;
            FlValue::Array(items)
        }
        EncoderOp::BeginDict(_) => {
            let mut entries: Vec<(Vec<u8>, FlValue)> = Vec::new();
            while ops[*pos] != EncoderOp::EndDict {
                let key = match &ops[*pos] {
                    EncoderOp::WriteKey(k) => k.clone(),
                    EncoderOp::WriteKeyF32(b) => format!("{}", f32::from_bits(*b)).into_bytes(),
                    EncoderOp::WriteKeyF64(b) => format!("{}", f64::from_bits(*b)).into_bytes(),
                    other => panic!("expected a key, got {:?}", other),
                };
                *pos += 1;
                let value = read_value(ops, pos);
                entries.push((key, value));
            }
            *pos += 1;
            // A Fleece dictionary keeps its keys sorted.
            entries.sort_by(|a, b| a.0.cmp(&b.0));
            FlValue::Dict(entries)
        }
        other => panic!("unexpected call {:?}", other),
    }
}

fn document(ops: &[EncoderOp]) -> FlValue {
    let mut pos = 0;
    let v = read_value(ops, &mut pos);
    assert_eq!(pos, ops.len());
    v
}

fn json(v: &FlValue) -> String {
    match v {
        FlValue::Undefined => "undefined".to_string(),
        FlValue::Null => "null".to_string(),
        FlValue::Bool(b) => b.to_string(),
        FlValue::Number(n) => {
            if n.is_integer {
                if n.is_unsigned {
                    n.as_unsigned.to_string()
                } else {
                    n.as_int.to_string()
                }
            } else if n.is_double {
                format!("{:?}", f64::from_bits(n.double_bits))
            } else {
                format!("{:?}", f32::from_bits(n.float_bits))
            }
        }
        FlValue::String(s) => format!("\"{}\"", String::from_utf8(s.clone()).unwrap()),
        FlValue::Data(_) => "data".to_string(),
        FlValue::Array(items) => {
            let parts: Vec<String> = items.iter().map(json).collect();
            format!("[{}]", parts.join(","))
        }
        FlValue::Dict(entries) => {
            let parts: Vec<String> = entries
                .iter()
                .map(|(k, v)| format!("\"{}\":{}", String::from_utf8(k.clone()).unwrap(), json(v)))
                .collect();
            format!("{{{}}}", parts.join(","))
        }
    }
}

fn to_fleece_to_json(v: &SerdeValue) -> String {
    let ops = serialize(v).unwrap();
    json(&document(&ops))
}

fn to_fleece_to_json_enc(v: &SerdeValue, mut session: FlEncoderSession) -> String {
    encode_into(v, session.inner).unwrap();
    let ops: Vec<EncoderOp> = std::mem::take(&mut session.inner.ops);
    json(&document(&ops))
}

fn s(text: &str) -> SerdeValue {
    SerdeValue::Str(text.to_string())
}

fn i(v: i64) -> SerdeValue {
    SerdeValue::Int(v)
}

fn u(v: u64) -> SerdeValue {
    SerdeValue::UInt(v)
}

fn field(name: &str, v: SerdeValue) -> (String, SerdeValue) {
    (name.to_string(), v)
}

fn primitives() -> Vec<(&'static str, SerdeValue)> {
    vec![
        ("true", SerdeValue::Bool(true)),
        ("false", SerdeValue::Bool(false)),
        ("-9223372036854775808", i(i64::MIN)),
        ("9223372036854775807", i(i64::MAX)),
        ("0", i(0)),
        ("\"This is text, привет\"", s("This is text, привет")),
        (
            r#"[false,17,"Как","Ч"]"#,
            SerdeValue::Tuple(4, vec![SerdeValue::Bool(false), i(17), s("Как"), SerdeValue::Char('Ч')]),
        ),
        ("null", SerdeValue::NoneValue),
        ("17", SerdeValue::SomeValue(Box::new(i(17)))),
        ("null", SerdeValue::Unit),
        ("\"ж\"", SerdeValue::Char('ж')),
    ]
}

#[test]
fn test_ser_primitive() {
    for (expect, v) in primitives() {
        assert_eq!(expect, to_fleece_to_json(&v));
    }
}

#[test]
fn test_ser_primitive_with_shared_encoder() {
    let mut enc = FlEncoder::new();
    for (expect, v) in primitives() {
        assert_eq!(expect, to_fleece_to_json_enc(&v, FlEncoderSession::new(&mut enc)));
    }
}

#[test]
fn test_ser_struct() {
    let test = SerdeValue::Struct(
        2,
        vec![field("int", u(1)), field("seq", SerdeValue::Sequence(Some(2), vec![s("a"), s("b")]))],
    );
    assert_eq!("{\"int\":1,\"seq\":[\"a\",\"b\"]}", to_fleece_to_json(&test));
    let test = SerdeValue::Struct(
        3,
        vec![
            field("int", u(1)),
            field("seq", SerdeValue::Sequence(Some(2), vec![s("a"), s("b")])),
            field("opt", SerdeValue::SomeValue(Box::new(SerdeValue::F32(0.0f32.to_bits())))),
        ],
    );
    assert_eq!(r#"{"int":1,"opt":0.0,"seq":["a","b"]}"#, to_fleece_to_json(&test));
    assert_eq!("null", to_fleece_to_json(&SerdeValue::UnitStruct));
    assert_eq!("15", to_fleece_to_json(&SerdeValue::NewtypeStruct(Box::new(u(15)))));
    assert_eq!("[1,400]", to_fleece_to_json(&SerdeValue::TupleStruct(2, vec![u(1), u(400)])));
}

#[test]
fn test_ser_enum() {
    assert_eq!(r#""Unit""#, to_fleece_to_json(&SerdeValue::UnitVariant("Unit".to_string())));
    assert_eq!(
        r#"{"Newtype":1}"#,
        to_fleece_to_json(&SerdeValue::NewtypeVariant("Newtype".to_string(), Box::new(u(1))))
    );
    assert_eq!(
        r#"{"Tuple":[1,2]}"#,
        to_fleece_to_json(&SerdeValue::TupleVariant("Tuple".to_string(), 2, vec![u(1), u(2)]))
    );
    assert_eq!(
        r#"{"Struct":{"a":1,"b":127}}"#,
        to_fleece_to_json(&SerdeValue::StructVariant(
            "Struct".to_string(),
            2,
            vec![field("a", u(1)), field("b", i(127))]
        ))
    );
}

#[test]
fn test_ser_collections() {
    assert_eq!("[1,2]", to_fleece_to_json(&SerdeValue::Tuple(2, vec![u(1), u(2)])));
    assert_eq!("[1,2,3]", to_fleece_to_json(&SerdeValue::Sequence(Some(3), vec![i(1), i(2), i(3)])));
    assert_eq!("[]", to_fleece_to_json(&SerdeValue::Sequence(Some(0), vec![])));
    let m = SerdeValue::MapEntries(Some(2), vec![(s("17"), i(17)), (s("15"), i(15))]);
    assert_eq!(r#"{"15":15,"17":17}"#, to_fleece_to_json(&m));
    let m = SerdeValue::MapEntries(Some(2), vec![(i(6), i(11)), (i(5), i(10))]);
    assert_eq!(r#"{"5":10,"6":11}"#, to_fleece_to_json(&m));
    assert_eq!("{}", to_fleece_to_json(&SerdeValue::MapEntries(Some(0), vec![])));
    let mm = |v: u64| SerdeValue::NewtypeStruct(Box::new(u(v)));
    let m = SerdeValue::MapEntries(Some(2), vec![(mm(5), i(35)), (mm(6), i(42))]);
    assert_eq!(r#"{"5":35,"6":42}"#, to_fleece_to_json(&m));
}

fn ser(v: &SerdeValue) -> FlValue {
    document(&serialize(v).unwrap())
}

#[test]
fn test_de_primitive() {
    assert_eq!(true, Deserializer::new(&ser(&SerdeValue::Bool(true))).deserialize_bool().unwrap());
    assert_eq!(false, Deserializer::new(&ser(&SerdeValue::Bool(false))).deserialize_bool().unwrap());
    assert_eq!(i8::MIN, Deserializer::new(&ser(&i(i8::MIN as i64))).deserialize_i8().unwrap());
    assert_eq!(i16::MIN, Deserializer::new(&ser(&i(i16::MIN as i64))).deserialize_i16().unwrap());
    assert_eq!(i32::MIN, Deserializer::new(&ser(&i(i32::MIN as i64))).deserialize_i32().unwrap());
    assert_eq!(i64::MIN, Deserializer::new(&ser(&i(i64::MIN))).deserialize_i64().unwrap());
    assert_eq!(i64::MAX, Deserializer::new(&ser(&i(i64::MAX))).deserialize_i64().unwrap());
    assert_eq!(0i8, Deserializer::new(&ser(&i(0))).deserialize_i8().unwrap());
    assert_eq!(0u8, Deserializer::new(&ser(&u(0))).deserialize_u8().unwrap());
    assert_eq!(0u16, Deserializer::new(&ser(&u(0))).deserialize_u16().unwrap());
    assert_eq!(0u32, Deserializer::new(&ser(&u(0))).deserialize_u32().unwrap());
    assert_eq!(0u64, Deserializer::new(&ser(&u(0))).deserialize_u64().unwrap());
    assert_eq!(-1_i32, Deserializer::new(&ser(&i(-1))).deserialize_i32().unwrap());
    let bits = Deserializer::new(&ser(&SerdeValue::F32((-1e10f32).to_bits()))).deserialize_f32().unwrap();
    assert_eq!(-1e10f32, f32::from_bits(bits));
    let bits = Deserializer::new(&ser(&SerdeValue::F64((-1e10f64).to_bits()))).deserialize_f64().unwrap();
    assert_eq!(-1e10f64, f64::from_bits(bits));
    let v = ser(&s("Ну что?"));
    assert_eq!("Ну что?", Deserializer::new(&v).deserialize_str().unwrap());
    assert_eq!('ю', Deserializer::new(&ser(&SerdeValue::Char('ю'))).deserialize_char().unwrap());
}

#[derive(Debug, PartialEq)]
struct Test {
    int: u32,
    seq: Vec<String>,
    opt: Option<f32>,
}

static TEST_FIELDS: &[&str] = &["int", "seq", "opt"];

fn test_value(t: &Test) -> SerdeValue {
    SerdeValue::Struct(
        3,
        vec![
            field("int", u(t.int as u64)),
            field(
                "seq",
                SerdeValue::Sequence(Some(t.seq.len()), t.seq.iter().map(|x| s(x)).collect()),
            ),
            field(
                "opt",
                match t.opt {
                    Some(f) => SerdeValue::SomeValue(Box::new(SerdeValue::F32(f.to_bits()))),
                    None => SerdeValue::NoneValue,
                },
            ),
        ],
    )
}

fn read_strings(d: &Deserializer) -> Vec<String> {
    let mut access = d.deserialize_seq().unwrap();
    let mut out = Vec::new();
    while let Some(e) = access.next_element().unwrap() {
        out.push(e.deserialize_str().unwrap().to_string());
    }
    out
}

fn read_test(v: &FlValue) -> Test {
    let mut access = Deserializer::new(v).deserialize_struct("Test", TEST_FIELDS).unwrap();
    let int = access.next_element().unwrap().unwrap().deserialize_u32().unwrap();
    let seq = read_strings(&access.next_element().unwrap().unwrap());
    let opt_d = access.next_element().unwrap().unwrap();
    let opt = if opt_d.deserialize_option() {
        Some(f32::from_bits(opt_d.deserialize_f32().unwrap()))
    } else {
        None
    };
    assert!(access.next_element().unwrap().is_none());
    Test { int, seq, opt }
}

#[test]
fn test_de_struct() {
    let test = Test { int: 1, seq: vec!["a".into(), "b".into()], opt: Some(0.0) };
    assert_eq!(test, read_test(&ser(&test_value(&test))));
    let test = Test { int: 500, seq: vec!["a".into(), "b".into()], opt: None };
    assert_eq!(test, read_test(&ser(&test_value(&test))));
    let test = Test { int: 44, seq: vec![], opt: Some(1.0) };
    assert_eq!(test, read_test(&ser(&test_value(&test))));

    assert!(Deserializer::new(&ser(&SerdeValue::UnitStruct)).deserialize_unit().is_ok());
    let v = ser(&SerdeValue::NewtypeStruct(Box::new(u(15))));
    assert_eq!(15u8, Deserializer::new(&v).deserialize_u8().unwrap());
    let v = ser(&SerdeValue::TupleStruct(2, vec![u(1), u(400)]));
    let mut access = Deserializer::new(&v).deserialize_seq().unwrap();
    assert_eq!(1u16, access.next_element().unwrap().unwrap().deserialize_u16().unwrap());
    assert_eq!(400u16, access.next_element().unwrap().unwrap().deserialize_u16().unwrap());
    assert!(access.next_element().unwrap().is_none());
}

#[derive(Debug, PartialEq)]
enum E {
    Unit,
    Newtype(u32),
    Tuple(u32, u32),
    Struct { a: u32 },
}

static STRUCT_FIELDS: &[&str] = &["a"];

fn e_value(e: &E) -> SerdeValue {
    match e {
        E::Unit => SerdeValue::UnitVariant("Unit".into()),
        E::Newtype(x) => SerdeValue::NewtypeVariant("Newtype".into(), Box::new(u(*x as u64))),
        E::Tuple(a, b) => SerdeValue::TupleVariant("Tuple".into(), 2, vec![u(*a as u64), u(*b as u64)]),
        E::Struct { a } => SerdeValue::StructVariant("Struct".into(), 1, vec![field("a", u(*a as u64))]),
    }
}

fn read_e(v: &FlValue) -> E {
    match Deserializer::new(v).deserialize_enum("E").unwrap() {
        EnumStart::Unit(name) => {
            assert_eq!("Unit", name);
            E::Unit
        }
        EnumStart::Variant(access) => {
            let (name, d) = access.variant().unwrap();
            match name {
                "Newtype" => E::Newtype(d.deserialize_u32().unwrap()),
                "Tuple" => {
                    let mut a = d.deserialize_seq().unwrap();
                    let x = a.next_element().unwrap().unwrap().deserialize_u32().unwrap();
                    let y = a.next_element().unwrap().unwrap().deserialize_u32().unwrap();
                    E::Tuple(x, y)
                }
                "Struct" => {
                    let mut a = d.deserialize_struct("Struct", STRUCT_FIELDS).unwrap();
                    E::Struct { a: a.next_element().unwrap().unwrap().deserialize_u32().unwrap() }
                }
                other => panic!("unknown variant {}", other),
            }
        }
    }
}

#[test]
fn test_de_enum() {
    for expected in [E::Unit, E::Newtype(1), E::Tuple(1, 2), E::Struct { a: 1 }] {
        assert_eq!(expected, read_e(&ser(&e_value(&expected))));
    }
}

fn read_i32_seq(v: &FlValue) -> Vec<i32> {
    let mut access = Deserializer::new(v).deserialize_seq().unwrap();
    let mut out = Vec::new();
    while let Some(e) = access.next_element().unwrap() {
        out.push(e.deserialize_i32().unwrap());
    }
    out
}

fn read_map<K>(v: &FlValue, key: impl Fn(&str) -> K) -> Vec<(K, i32)> {
    let mut access = Deserializer::new(v).deserialize_map().unwrap();
    let mut out = Vec::new();
    while let Some(k) = access.next_key().unwrap() {
        let k = key(k);
        let value = access.next_value().unwrap().deserialize_i32().unwrap();
        out.push((k, value));
    }
    out
}

#[test]
fn test_de_collections() {
    let v = ser(&SerdeValue::Tuple(2, vec![u(1), u(2)]));
    let mut access = Deserializer::new(&v).deserialize_seq().unwrap();
    assert_eq!(1u8, access.next_element().unwrap().unwrap().deserialize_u8().unwrap());
    assert_eq!(2u8, access.next_element().unwrap().unwrap().deserialize_u8().unwrap());
    assert_eq!(vec![1, 2, 3], read_i32_seq(&ser(&SerdeValue::Sequence(Some(3), vec![i(1), i(2), i(3)]))));
    assert_eq!(Vec::<i32>::new(), read_i32_seq(&ser(&SerdeValue::Sequence(Some(0), vec![]))));

    let m = ser(&SerdeValue::MapEntries(Some(2), vec![(s("15"), i(15)), (s("17"), i(17))]));
    assert_eq!(vec![("15".to_string(), 15), ("17".to_string(), 17)], read_map(&m, |k| k.to_string()));
    let m = ser(&SerdeValue::MapEntries(Some(2), vec![(i(5), i(10)), (i(6), i(11))]));
    assert_eq!(vec![(5, 10), (6, 11)], read_map(&m, |k| DictKeySerializer(k).deserialize_i32().unwrap()));
    let m = ser(&SerdeValue::MapEntries(Some(0), vec![]));
    assert_eq!(Vec::<(i32, i32)>::new(), read_map(&m, |k| DictKeySerializer(k).deserialize_i32().unwrap()));
    let mm = |v: u64| SerdeValue::NewtypeStruct(Box::new(u(v)));
    let m = ser(&SerdeValue::MapEntries(Some(2), vec![(mm(5), i(35)), (mm(6), i(42))]));
    assert_eq!(vec![(5u8, 35), (6u8, 42)], read_map(&m, |k| DictKeySerializer(k).deserialize_u8().unwrap()));
}

#[test]
fn ser_char_is_its_utf8_encoding() {
    let ops = serialize(&SerdeValue::Char('ж')).unwrap();
    assert_eq!(vec![EncoderOp::WriteString(vec![0xd0, 0xb6])], ops);
}

#[test]
fn ser_int_key_is_decimal_text() {
    let ops = serialize(&SerdeValue::MapEntries(None, vec![(i(-42), SerdeValue::Bool(true))])).unwrap();
    assert_eq!(
        vec![
            EncoderOp::BeginDict(0),
            EncoderOp::WriteKey(b"-42".to_vec()),
            EncoderOp::WriteBool(true),
            EncoderOp::EndDict
        ],
        ops
    );
}

#[test]
fn ser_bytes_and_bad_keys_are_refused() {
    assert!(serialize(&SerdeValue::Bytes(vec![1, 2])).is_err());
    let m = SerdeValue::MapEntries(None, vec![(SerdeValue::Unit, i(1))]);
    assert!(serialize(&m).is_err());
}

#[test]
fn de_wrong_kinds_are_errors() {
    let v = ser(&s("x"));
    assert!(Deserializer::new(&v).deserialize_bool().is_err());
    assert!(Deserializer::new(&v).deserialize_i32().is_err());
    let v = ser(&i(300));
    assert!(Deserializer::new(&v).deserialize_u8().is_err());
    assert_eq!(300u16, Deserializer::new(&v).deserialize_u16().unwrap());
    let v = ser(&s("ab"));
    assert!(Deserializer::new(&v).deserialize_char().is_err());
}

#[test]
fn dict_gives_back_what_was_set() {
    let mut d = MutableDict::new().ok().unwrap();
    d.set_string("a", "x");
    d.set_i64("b", 5);
    d.set_string("a", "y");
    let view = d.as_dict();
    assert_eq!(Some("y"), view.get_as_str("a"));
    assert_eq!(None, view.get_as_str("b"));
    assert_eq!(None, view.get_as_str("c"));
    assert_eq!(2, d.entries.len());
}

#[test]
fn serialized_calls_are_well_nested() {
    let v = SerdeValue::StructVariant(
        "S".to_string(),
        2,
        vec![
            field("xs", SerdeValue::Sequence(None, vec![i(1), SerdeValue::Tuple(1, vec![s("a")])])),
            field("m", SerdeValue::MapEntries(None, vec![(s("k"), SerdeValue::NewtypeVariant("V".into(), Box::new(u(2))))])),
        ],
    );
    let ops = serialize(&v).unwrap();
    let mut depth: i64 = 0;
    for op in &ops {
        depth += match op {
            EncoderOp::BeginArray(_) | EncoderOp::BeginDict(_) => 1,
            EncoderOp::EndArray | EncoderOp::EndDict => -1,
            _ => 0,
        };
        assert!(depth >= 0);
    }
    assert_eq!(0, depth);
}

use message_generator::errors::ParserError;
use message_generator::float::Double;
use message_generator::message::{check_messages, Bounds, Field, MsgSpec, Type};
use message_generator::parser::{compile, get_messages, parse_toml};
use message_generator::tree::{measure_nesting, read_document, Node, MAX_NESTING};

fn s(x: &str) -> String {
    x.to_string()
}

fn table(entries: Vec<(&str, Node)>) -> Node {
    Node::Table(entries.into_iter().map(|(k, v)| (k.to_string(), v)).collect())
}

fn names(msgs: &[MsgSpec]) -> Vec<String> {
    msgs.iter().map(|m| m.name.clone()).collect()
}

#[test]
fn ids_follow_declaration_order_not_key_order() {
    let root = table(vec![
        ("outbound", table(vec![("speed", table(vec![("v", Node::Str(s("u8")))])), ("angle", table(vec![]))])),
        ("inbound", table(vec![("motor", table(vec![])), ("brake", table(vec![("on", Node::Str(s("i8")))]))])),
    ]);
    let msgs = compile(&root).unwrap();
    assert_eq!(names(&msgs), vec!["OutboundSpeed", "OutboundAngle", "InboundMotor", "InboundBrake"]);
    assert_eq!(msgs.iter().map(|m| m.id).collect::<Vec<_>>(), vec![0, 1, 2, 3]);
}

#[test]
fn toml_text_keeps_declaration_order() {
    let text = "[outbound.speed]\nv = \"u8\"\n[outbound.angle]\nw = \"i16\"\n[inbound.motor]\n[inbound.brake]\n";
    let msgs = parse_toml(text).unwrap();
    assert_eq!(names(&msgs), vec!["OutboundSpeed", "OutboundAngle", "InboundMotor", "InboundBrake"]);
    assert_eq!(msgs.iter().map(|m| m.id).collect::<Vec<_>>(), vec![0, 1, 2, 3]);
    assert_eq!(msgs[1].fields[0].name, "w");
    assert_eq!(msgs[1].fields[0].t, Type::I16(Bounds { min: -32768, max: 32767 }));
}

#[test]
fn compiling_twice_gives_the_same_messages() {
    let text = "[outbound.speed]\nv = \"u8\"\nw = { type = \"f32\", min = -1.5, max = 2.0 }\n[inbound.motor]\nx = \"chars\"\n";
    let a = parse_toml(text).unwrap();
    let b = parse_toml(text).unwrap();
    assert_eq!(format!("{:?}", a), format!("{:?}", b));
}

#[test]
fn every_rejected_field_is_reported() {
    let text = "[outbound.first]\nbad = \"u64\"\nok = \"u8\"\n[outbound.second]\nfine = \"i32\"\n[inbound.third]\nworse = { type = \"u8\", min = -5 }\n";
    let errs = parse_toml(text).unwrap_err();
    assert_eq!(
        errs,
        vec![s("First.bad: ParserError: type invalid!"), s("Third.worse: ParserError: bounds invalid!")]
    );
}

#[test]
fn errors_within_one_class_are_all_reported() {
    let root = table(vec![(
        "outbound",
        table(vec![
            ("one", table(vec![("a", Node::Int(3))])),
            ("two", table(vec![("b", Node::Str(s("u16")))])),
            ("three", table(vec![("c", table(vec![("size", Node::Int(4))]))])),
        ]),
    )]);
    let errs = compile(&root).unwrap_err();
    assert_eq!(errs, vec![s("One.a: ParserError: type invalid!"), s("Three.c: ParserError: type not found!")]);
}

#[test]
fn text_that_is_not_toml_is_one_error() {
    assert_eq!(parse_toml("[outbound\n").unwrap_err(), vec![s("IoError at TOML parsing!")]);
    assert!(read_document("a = = 1").is_none());
}

#[test]
fn structural_errors_are_single() {
    assert_eq!(parse_toml("outbound = 5\n").unwrap_err(), vec![s("outbound: not a table")]);
    assert_eq!(parse_toml("[outbound]\nspeed = 1\n").unwrap_err(), vec![s("outbound.speed: not a table")]);
    assert_eq!(compile(&Node::Int(1)).unwrap_err(), vec![s("schema root is not a table")]);
}

#[test]
fn deep_nesting_is_refused_before_parsing() {
    let deep = format!("a = {}", "[".repeat(100_000));
    assert_eq!(parse_toml(&deep).unwrap_err(), vec![s("schema nests too deeply")]);
    assert!(read_document(&deep).is_none());
    let mut many = String::new();
    for i in 0..300 {
        many.push_str(&format!("[outbound.message{}]\nvalue = \"u8\"\n", i));
    }
    assert_eq!(parse_toml(&many).unwrap().len(), 300);
}

#[test]
fn large_shallow_schemas_parse() {
    let mut text = String::new();
    for m in 0..51 {
        text.push_str(&format!("[outbound.m{}]\n", m));
        for f in 0..6 {
            text.push_str(&format!("f{} = {{ type = \"f32\", min = -1.5, max = 2.5 }} # a.b.c\n", f));
        }
    }
    assert!(measure_nesting(&text) <= MAX_NESTING);
    let msgs = parse_toml(&text).unwrap();
    assert_eq!(msgs.len(), 51);
    assert_eq!(msgs[50].fields.len(), 6);
}

#[test]
fn nesting_depth_examples() {
    assert_eq!(measure_nesting(""), 0);
    assert_eq!(measure_nesting("[a.b]\nx = 1\n"), 2);
    assert_eq!(measure_nesting("[a]\nx = [[[1]]]\ny = 2\n"), 4);
    assert_eq!(measure_nesting("x = [\n[\n[1]]]\n"), 3);
    assert_eq!(measure_nesting("x = \"]]]\"\ny = [[1]]\n"), 2);
    assert_eq!(measure_nesting("x = \"\"\"\n]]\"\"\" # ]]\ny = [[1]]\n"), 2);
    assert_eq!(measure_nesting("x = '[[[' \n"), 3);
    assert_eq!(measure_nesting(&"[".repeat(40)), 40);
}

#[test]
fn empty_schema_has_no_messages() {
    assert!(parse_toml("").unwrap().is_empty());
}

#[test]
fn u8_bounds_below_native_minimum_are_rejected() {
    let decl = table(vec![("type", Node::Str(s("u8"))), ("min", Node::Int(-5))]);
    assert_eq!(Type::from_toml(&decl), Err(ParserError::BoundsInvalid));
}

#[test]
fn u8_bounds_out_of_order_are_rejected() {
    let decl = table(vec![("type", Node::Str(s("u8"))), ("min", Node::Int(2)), ("max", Node::Int(1))]);
    assert_eq!(Type::from_toml(&decl), Err(ParserError::BoundsInvalid));
    let equal = table(vec![("type", Node::Str(s("u8"))), ("min", Node::Int(7)), ("max", Node::Int(7))]);
    assert_eq!(Type::from_toml(&equal), Err(ParserError::BoundsInvalid));
}

#[test]
fn bounds_may_narrow_the_native_range() {
    let decl = table(vec![("type", Node::Str(s("i16"))), ("min", Node::Int(-10)), ("max", Node::Int(300))]);
    assert_eq!(Type::from_toml(&decl), Ok(Type::I16(Bounds { min: -10, max: 300 })));
    let wide = table(vec![("type", Node::Str(s("i8"))), ("max", Node::Int(128))]);
    assert_eq!(Type::from_toml(&wide), Err(ParserError::BoundsInvalid));
    let float_for_int = table(vec![("type", Node::Str(s("u32"))), ("max", Node::Float(Double { bits: 2.0f64.to_bits() }))]);
    assert_eq!(Type::from_toml(&float_for_int), Err(ParserError::BoundsInvalid));
}

#[test]
fn float_bounds_are_checked_as_floats() {
    let lo = Double { bits: (-1.5f64).to_bits() };
    let hi = Double { bits: 2.25f64.to_bits() };
    let decl = table(vec![("type", Node::Str(s("f32"))), ("min", Node::Float(lo)), ("max", Node::Float(hi))]);
    assert_eq!(Type::from_toml(&decl), Ok(Type::F32(Bounds { min: lo, max: hi })));
    let int_for_float = table(vec![("type", Node::Str(s("f32"))), ("min", Node::Int(0))]);
    assert_eq!(Type::from_toml(&int_for_float), Err(ParserError::BoundsInvalid));
    let too_big = table(vec![("type", Node::Str(s("f32"))), ("max", Node::Float(Double { bits: 1e39f64.to_bits() }))]);
    assert_eq!(Type::from_toml(&too_big), Err(ParserError::BoundsInvalid));
    let nan = table(vec![("type", Node::Str(s("f32"))), ("min", Node::Float(Double { bits: f64::NAN.to_bits() }))]);
    assert_eq!(Type::from_toml(&nan), Err(ParserError::BoundsInvalid));
    let text = "[a.b]\nx = { type = \"f32\", min = -1.5, max = 2.25 }\n";
    assert_eq!(parse_toml(text).unwrap()[0].fields[0].t, Type::F32(Bounds { min: lo, max: hi }));
}

#[test]
fn double_comparison_matches_std() {
    let values = [-3.5f64, -0.0, 0.0, 1e-300, 2.5, 7.0, f64::INFINITY, f64::NEG_INFINITY, f64::NAN];
    for a in values.iter() {
        for b in values.iter() {
            let da = Double { bits: a.to_bits() };
            let db = Double { bits: b.to_bits() };
            assert_eq!(da.less_than(&db), a < b, "{} < {}", a, b);
            assert_eq!(da.at_most(&db), a <= b, "{} <= {}", a, b);
        }
    }
}

fn value_of_hex(text: &str) -> f64 {
    let (neg, rest) = match text.strip_prefix('-') {
        Some(r) => (true, r),
        None => (false, text),
    };
    let rest = rest.strip_prefix("0x").unwrap();
    let (mantissa, exp) = rest.split_once('p').unwrap();
    let (lead, frac) = mantissa.split_once('.').unwrap();
    let frac = u64::from_str_radix(frac, 16).unwrap() as f64 / 2f64.powi(52);
    let m = lead.parse::<f64>().unwrap() + frac;
    let e: i32 = exp.parse().unwrap();
    let v = m * 2f64.powi(e.max(-1022)) * 2f64.powi(e.min(-1022) + 1022);
    if neg {
        -v
    } else {
        v
    }
}

#[test]
fn hex_literals_are_exact() {
    assert_eq!(Double { bits: 1.5f64.to_bits() }.to_hex_literal(), "0x1.8000000000000p0");
    assert_eq!(Double { bits: (-2.0f64).to_bits() }.to_hex_literal(), "-0x1.0000000000000p1");
    assert_eq!(Double { bits: 0.0f64.to_bits() }.to_hex_literal(), "0x0.0000000000000p-1022");
    assert_eq!(Double { bits: (f32::MAX as f64).to_bits() }.to_hex_literal(), "0x1.fffffe0000000p127");
    let values = [0.1f64, -0.125, 0.05, 2.675, 1e-300, 5e-324, 123456.789, f32::MIN as f64, f32::MIN_POSITIVE as f64];
    for x in values.iter() {
        let text = Double { bits: x.to_bits() }.to_hex_literal();
        assert_eq!(value_of_hex(&text).to_bits(), x.to_bits(), "{}", text);
    }
}

#[test]
fn chars_sizes() {
    assert_eq!(Type::from_toml(&Node::Str(s("chars"))), Ok(Type::CHARS(10)));
    let sized = table(vec![("type", Node::Str(s("chars"))), ("size", Node::Int(8))]);
    assert_eq!(Type::from_toml(&sized), Ok(Type::CHARS(8)));
    let zero = table(vec![("type", Node::Str(s("chars"))), ("size", Node::Int(0))]);
    assert_eq!(Type::from_toml(&zero), Err(ParserError::CharSizeInvalid));
    let text = table(vec![("type", Node::Str(s("chars"))), ("size", Node::Str(s("8")))]);
    assert_eq!(Type::from_toml(&text), Err(ParserError::CharSizeInvalid));
    let missing = table(vec![("type", Node::Str(s("chars")))]);
    assert_eq!(Type::from_toml(&missing), Err(ParserError::SizeNotFound));
}

#[test]
fn type_errors() {
    assert_eq!(Type::from_toml(&Node::Str(s("u64"))), Err(ParserError::TypeInvalid));
    assert_eq!(Type::from_toml(&Node::Int(4)), Err(ParserError::TypeInvalid));
    assert_eq!(Type::from_toml(&Node::Other), Err(ParserError::TypeInvalid));
    let no_type = table(vec![("min", Node::Int(0))]);
    assert_eq!(Type::from_toml(&no_type), Err(ParserError::TypeNotFound));
    let bad_type = table(vec![("type", Node::Int(5))]);
    assert_eq!(Type::from_toml(&bad_type), Err(ParserError::TypeInvalid));
    assert_eq!(Type::from_string("i32"), Ok(Type::I32(Bounds { min: -2147483648, max: 2147483647 })));
    assert_eq!(Type::from_string("U8"), Err(ParserError::TypeInvalid));
}

#[test]
fn error_messages() {
    assert_eq!(ParserError::TypeInvalid.message(), "ParserError: type invalid!");
    assert_eq!(ParserError::CharSizeInvalid.message(), "ParserError: chars size invalid!");
    assert_eq!(ParserError::TypeNotFound.message(), "ParserError: type not found!");
    assert_eq!(ParserError::SizeNotFound.message(), "ParserError: size not found!");
    assert_eq!(ParserError::BoundsInvalid.message(), "ParserError: bounds invalid!");
}

#[test]
fn payload_and_frame_sizes() {
    let msg = MsgSpec {
        name: s("Sample"),
        id: 0,
        fields: vec![
            Field { name: s("a"), t: Type::U32(Bounds { min: 0, max: 4294967295 }) },
            Field { name: s("b"), t: Type::CHARS(8) },
            Field { name: s("c"), t: Type::I8(Bounds { min: -128, max: 127 }) },
        ],
    };
    assert_eq!(msg.get_payload_size(), 13);
    assert_eq!(msg.get_buffer_size(), 19);
    let empty = MsgSpec { name: s("Empty"), id: 0, fields: vec![] };
    assert_eq!(empty.get_payload_size(), 0);
    assert_eq!(empty.get_buffer_size(), 6);
}

#[test]
fn type_sizes() {
    assert_eq!(Type::I8(Bounds { min: -1, max: 1 }).get_size(), 1);
    assert_eq!(Type::U16(Bounds { min: 0, max: 1 }).get_size(), 2);
    assert_eq!(Type::I32(Bounds { min: 0, max: 1 }).get_size(), 4);
    assert_eq!(Type::F32(Bounds { min: Double { bits: 0 }, max: Double { bits: 1.0f64.to_bits() } }).get_size(), 4);
    assert_eq!(Type::CHARS(17).get_size(), 17);
}

#[test]
fn uid_message() {
    let m = MsgSpec::uid_msg();
    assert_eq!(m.name, "InterMcuUid");
    assert_eq!(m.id, 0);
    assert_eq!(m.fields.len(), 1);
    assert_eq!(m.fields[0].name, "uid");
    assert_eq!(m.fields[0].t, Type::U32(Bounds { min: 0, max: 4294967295 }));
    assert_eq!(m.get_buffer_size(), 10);
}

#[test]
fn get_messages_names_and_reports() {
    let decls = table(vec![("x", Node::Str(s("u8"))), ("y", Node::Str(s("bogus")))]);
    let (m, errs) = get_messages("Outbound", "Speed", &decls).unwrap();
    assert_eq!(m.name, "OutboundSpeed");
    assert_eq!(m.fields.len(), 1);
    assert_eq!(errs, vec![s("Speed.y: ParserError: type invalid!")]);
    assert!(get_messages("Outbound", "Speed", &Node::Int(1)).is_none());
}

#[test]
fn message_checks() {
    let good = vec![MsgSpec::uid_msg()];
    assert!(check_messages(&good));
    let bad = vec![MsgSpec {
        name: s("Bad"),
        id: 0,
        fields: vec![Field { name: s("a"), t: Type::U8(Bounds { min: 5, max: 5 }) }],
    }];
    assert!(!check_messages(&bad));
    let huge = vec![MsgSpec {
        name: s("Huge"),
        id: 0,
        fields: vec![Field { name: s("a"), t: Type::CHARS(usize::MAX) }],
    }];
    assert!(!check_messages(&huge));
    let long = vec![MsgSpec { name: s("Long"), id: 0, fields: vec![Field { name: s("a"), t: Type::CHARS(256) }] }];
    assert!(!check_messages(&long));
    let longest = vec![MsgSpec { name: s("Longest"), id: 0, fields: vec![Field { name: s("a"), t: Type::CHARS(255) }] }];
    assert!(check_messages(&longest));
    let far = vec![MsgSpec { name: s("Far"), id: 256, fields: vec![] }];
    assert!(!check_messages(&far));
    let last = vec![MsgSpec { name: s("Last"), id: 255, fields: vec![] }];
    assert!(check_messages(&last));
}

#[test]
fn duplicate_field_names_are_reported() {
    let root = table(vec![(
        "outbound",
        table(vec![("speed", table(vec![("a", Node::Str(s("u8"))), ("b", Node::Str(s("u8"))), ("a", Node::Str(s("i8")))]))]),
    )]);
    assert_eq!(compile(&root).unwrap_err(), vec![s("Speed.a: duplicate field name")]);
}

#[test]
fn duplicate_message_names_are_reported() {
    let text = "[outbound.motor_speed]\na = \"u8\"\n[outbound.MotorSpeed]\nb = \"u8\"\n";
    assert_eq!(parse_toml(text).unwrap_err(), vec![s("OutboundMotorSpeed: duplicate message name")]);
}

#[test]
fn field_errors_come_before_name_clashes() {
    let text = "[outbound.motor_speed]\na = \"u9\"\n[outbound.MotorSpeed]\nb = \"u8\"\n";
    assert_eq!(
        parse_toml(text).unwrap_err(),
        vec![s("MotorSpeed.a: ParserError: type invalid!"), s("OutboundMotorSpeed: duplicate message name")]
    );
}

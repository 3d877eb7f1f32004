use message_generator::c_generator::CGenerator;
use message_generator::cpp_generator::CPPGenerator;
use message_generator::float::{Double, F32_MAX_BITS, F32_MIN_BITS};
use message_generator::generator::Generator;
use message_generator::message::{Bounds, Field, MsgSpec, Type};
use message_generator::parser::parse_toml;
use message_generator::python_generator::PythonGenerator;

fn ping() -> Vec<MsgSpec> {
    vec![MsgSpec {
        name: "Ping".to_string(),
        id: 0,
        fields: vec![Field { name: "x".to_string(), t: Type::U8(Bounds { min: 0, max: 255 }) }],
    }]
}

#[test]
fn python_module_text() {
    let files = PythonGenerator::generate_messages(&ping(), 42);
    let expected = "from duckmsg import DuckMsg, clamp\nimport bitstring\nimport struct\n\nUID = 42\n\n\
def checksum(data):\n\ta = 0\n\tb = 0\n\tfor x in data:\n\t\ta = (a + x) % 256\n\t\tb = (b + a) % 256\n\treturn (a << 8) | b\n\n\
def to_f32(x):\n\treturn struct.unpack('<f', struct.pack('<f', x))[0]\n\n\
class Ping(DuckMsg):\n\tID = 0\n\tSIZE = 7\n\tdef __init__(self):\n\t\tself._x = 0\n\n\
\tdef serialize(self):\n\t\tpayload = bitstring.pack('uintle:8', self._x).bytes\n\
\t\tbody = bytes([self.ID, len(payload)]) + payload\n\t\tck = checksum(body)\n\
\t\treturn bytes([0xFF, 0xFF]) + body + bytes([ck & 0xFF, (ck >> 8) & 0xFF])\n\n\
\tdef deserialize(self, frame):\n\t\ts = bitstring.BitStream(frame[4:self.SIZE-2])\n\t\tself._x, = s.unpack('uintle:8')\n\n\
\tdef __repr__(self):\n\t\treturn '\\n'.join(['x : {}'.format(self._x)])\n\n\
\t@property\n\tdef x(self):\n\t\treturn self._x\n\n\t@x.setter\n\tdef x(self, x):\n\t\tself._x=clamp(0, x, 255)\n\n\
MESSAGES = {\n\t0 : Ping,\n}\n";
    assert_eq!(files, vec![("messages.py".to_string(), expected.to_string())]);
}

#[test]
fn python_class_without_fields() {
    let msgs = vec![MsgSpec { name: "Empty".to_string(), id: 3, fields: vec![] }];
    let files = PythonGenerator::generate_messages(&msgs, 1);
    let text = &files[0].1;
    assert!(text.contains("\tdef __init__(self):\n\t\tpass\n\n"));
    assert!(text.contains("\tdef serialize(self):\n\t\tpayload = b''\n"));
    assert!(text.contains("\tdef deserialize(self, frame):\n\t\tpass"));
    assert!(text.contains("\tSIZE = 6\n"));
    assert!(text.contains("\t3 : Empty,"));
}

#[test]
fn python_float_bounds_are_exact() {
    let lo = Double { bits: 0.125f64.to_bits() };
    let hi = Double { bits: 2.0f64.to_bits() };
    let msgs = vec![MsgSpec {
        name: "Temp".to_string(),
        id: 0,
        fields: vec![
            Field { name: "t".to_string(), t: Type::F32(Bounds { min: lo, max: hi }) },
            Field { name: "n".to_string(), t: Type::I16(Bounds { min: -5, max: 5 }) },
        ],
    }];
    let text = &PythonGenerator::generate_messages(&msgs, 1)[0].1;
    assert!(text.contains("self._t=to_f32(clamp(float.fromhex('0x1.0000000000000p-3'), t, float.fromhex('0x1.0000000000000p1')))"));
    assert!(text.contains("self._t = 0.0"));
    assert!(text.contains("bitstring.pack('floatle:32, intle:16', self._t, self._n).bytes"));
    assert!(text.contains("self._t, self._n, = s.unpack('floatle:32, intle:16')"));
}

#[test]
fn python_byte_arrays_keep_their_length() {
    let msgs = vec![MsgSpec {
        name: "Label".to_string(),
        id: 0,
        fields: vec![Field { name: "text".to_string(), t: Type::CHARS(4) }],
    }];
    let text = &PythonGenerator::generate_messages(&msgs, 1)[0].1;
    assert!(text.contains("\t\tself._text = bytes(4)\n"));
    assert!(text.contains("\t\tself._text=bytes(text)[:4].ljust(4, b'\\0')"));
    assert!(text.contains("bitstring.pack('bytes:4', self._text).bytes"));
}

#[test]
fn c_files() {
    let files = CGenerator::generate_messages(&ping(), 7);
    assert_eq!(files.len(), 2);
    assert_eq!(files[0].0, "messages.h");
    assert_eq!(files[1].0, "messages.c");
    let h = &files[0].1;
    assert!(h.starts_with("#ifndef MESSAGES_H\n#define MESSAGES_H\n\n#include <stdint.h>\n#include <string.h>\n\n#define UID 7\n"));
    assert!(h.contains("uint16_t compute_cheksum(uint8_t *buffer, int len);\nvoid put_le(uint8_t *buffer, uint32_t value, int width);"));
    assert!(h.contains("#define MAX_MSG_BUFFER_SIZE 7\n"));
    assert!(h.contains("#define SIZE_Ping 7\n#define  ID_Ping 0\n\nstruct Ping{\n  uint8_t x;\n};\n"));
    assert!(h.contains("static inline uint8_t ping_get_x(struct Ping* msg) { return msg->x; }"));
    assert!(h.contains("static inline void ping_set_x(struct Ping* msg, uint8_t value) { msg->x = value < 0 ? 0 : (value > 255 ? 255 : value); }"));
    assert!(h.contains("union Message_t {\n  struct Ping ping;\n};"));
    assert!(h.ends_with("#endif    // MESSAGES_H"));
    let c = &files[1].1;
    assert!(c.contains("uint8_t ck_a = 0, ck_b = 0;"));
    assert!(c.contains("buffer[i] = (value >> (8*i)) & 0xFF;"));
    assert!(c.contains("  if(id==0) {\n    ping_from_bytes(&tmsg->msg, buffer);\n  }"));
    assert!(c.contains("  buffer[offset++] = SIZE_Ping - 6;\n  put_le(buffer+offset, (uint32_t)msg->x, 1);\n  offset += 1;\n"));
    assert!(c.contains("  uint16_t checksum = compute_cheksum(buffer+2, SIZE_Ping - 4);"));
    assert!(c.contains("  int offset = 4;\n  msg->x = (uint8_t)get_le(buffer+offset, 1);\n  offset += 1;\n}"));
}

#[test]
fn c_accepts_an_empty_schema() {
    let files = CGenerator::generate_messages(&vec![], 3);
    assert!(files[0].1.contains("#define MAX_MSG_BUFFER_SIZE 0\n"));
    assert!(files[0].1.contains("#define UID 3\n"));
    assert_eq!(files[1].0, "messages.c");
}

#[test]
fn c_names_in_snake_case() {
    let msgs = vec![MsgSpec { name: "OutboundMotorSpeed".to_string(), id: 0, fields: vec![] }];
    let files = CGenerator::generate_messages(&msgs, 0);
    assert!(files[0].1.contains("void outbound_motor_speed_to_bytes(struct OutboundMotorSpeed* msg, uint8_t *buffer);"));
}

#[test]
fn c_max_buffer_size_is_the_largest_frame() {
    let text = "[a.small]\nx = \"u8\"\n[a.big]\ny = { type = \"chars\", size = 20 }\nz = \"u32\"\nf = \"f32\"\n";
    let msgs = parse_toml(text).unwrap();
    let files = CGenerator::generate_messages(&msgs, 0);
    assert!(files[0].1.contains("#define MAX_MSG_BUFFER_SIZE 34\n"));
    assert!(files[0].1.contains("  char y[20];"));
    assert!(files[0].1.contains("static inline void a_big_set_y(struct ABig* msg, const char* value) { strncpy(msg->y, value, 20); }"));
    assert!(files[1].1.contains("  memcpy(buffer+offset, msg->y, 20);\n  offset += 20;"));
    assert!(files[1].1.contains("  { uint32_t bits; memcpy(&bits, &msg->f, 4); put_le(buffer+offset, bits, 4); }\n  offset += 4;"));
    assert!(files[1].1.contains("  { uint32_t bits = get_le(buffer+offset, 4); memcpy(&msg->f, &bits, 4); }\n  offset += 4;"));
}

#[test]
fn cpp_files() {
    let msgs = vec![MsgSpec {
        name: "Temp".to_string(),
        id: 2,
        fields: vec![
            Field { name: "t".to_string(), t: Type::F32(Bounds { min: Double { bits: F32_MIN_BITS }, max: Double { bits: F32_MAX_BITS } }) },
            Field { name: "label".to_string(), t: Type::CHARS(4) },
            Field { name: "n".to_string(), t: Type::I16(Bounds { min: -5, max: 5 }) },
        ],
    }];
    let files = CPPGenerator::generate_messages(&msgs, 9);
    assert_eq!(files[0].0, "messages.h");
    assert_eq!(files[1].0, "messages.cpp");
    let h = &files[0].1;
    assert!(h.contains("#define UID 9\n\nuint16_t compute_cheksum(uint8_t *buffer, int len);"));
    assert!(h.contains("DuckMsg* make_msg(uint8_t id, uint8_t *buffer);"));
    assert!(h.contains("class Temp: public DuckMsg {\npublic:\n  static const size_t SIZE = 16;\n  static const uint8_t ID = 2;\n"));
    assert!(h.contains("  float get_t(){ return _t; }\n  void set_t(float t){ _t = clamp(-0x1.fffffe0000000p127, t, 0x1.fffffe0000000p127); }"));
    assert!(h.contains("  void set_label(char* label) {\n    strncpy(_label, label, 4);\n  }"));
    assert!(h.contains("  void set_n(int16_t n){ _n = clamp(-5, n, 5); }"));
    assert!(h.contains("private:\n  float _t;\n  char _label[4];\n  int16_t _n;\n};"));
    let cpp = &files[1].1;
    assert!(cpp.contains("uint16_t compute_cheksum(uint8_t *buffer, int len) {"));
    assert!(cpp.contains("Temp::Temp() {\n  _t = 0;\n  _label[0] = '\\0';\n  _n = 0;\n}"));
    assert!(cpp.contains("  buffer[offset++] = 10;\n"));
    assert!(cpp.contains("  put_le(buffer+offset, (uint32_t)_n, 2);\n  offset += 2;"));
    assert!(cpp.contains("uint16_t checksum = compute_cheksum(buffer+2, 12);"));
    assert!(cpp.contains("Temp::Temp(uint8_t *buffer) {\n  int offset = 4;\n"));
    assert!(cpp.contains("  _n = (int16_t)get_le(buffer+offset, 2);"));
    assert!(cpp.contains("  if(id==2) {\n    return new Temp(buffer);\n  }\n  return 0;\n}"));
}

#[test]
fn c_and_cpp_share_the_wire_routines() {
    let c = &CGenerator::generate_messages(&ping(), 1)[1].1;
    let cpp = &CPPGenerator::generate_messages(&ping(), 1)[1].1;
    let start = c.find("uint16_t compute_cheksum(uint8_t *buffer, int len) {").unwrap();
    let end = c.find("void msg_from_bytes").unwrap();
    assert!(cpp.contains(&c[start..end]));
}

#[test]
fn emission_is_deterministic() {
    let text = "[outbound.speed]\nv = \"u8\"\n[inbound.motor]\nx = { type = \"f32\", min = 0.5, max = 9.75 }\n";
    let a = parse_toml(text).unwrap();
    let b = parse_toml(text).unwrap();
    assert_eq!(CGenerator::generate_messages(&a, 5), CGenerator::generate_messages(&b, 5));
    assert_eq!(CPPGenerator::generate_messages(&a, 5), CPPGenerator::generate_messages(&b, 5));
    assert_eq!(PythonGenerator::generate_messages(&a, 5), PythonGenerator::generate_messages(&b, 5));
    let other = CGenerator::generate_messages(&a, 6);
    assert_eq!(
        CGenerator::generate_messages(&a, 5)[0].1.replace("#define UID 5\n", "#define UID 6\n"),
        other[0].1
    );
}

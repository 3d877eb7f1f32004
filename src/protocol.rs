//! The wire protocol that every emitted language implements: frame layout,
//! checksum and the clamping of scalar values on write, together with the
//! C code for them that the C and C++ emitters share.
//!
//! ```text
//! byte 0, 1     0xFF 0xFF       synchronisation
//! byte 2        message id
//! byte 3        payload length in bytes
//! bytes 4..N    payload: fields in declaration order, little-endian
//! bytes N, N+1  checksum over bytes 2..N, low byte first
//! ```
use crate::message::{Bounds, Field, MsgSpec, Type, FRAME_OVERHEAD};
use crate::text::{digits, int_text, i64_text, nat_text};
use vstd::prelude::*;

verus! {

/// The synchronisation byte; a frame starts with two of them.
pub const SYNC: u8 = 0xFF;

/// The two running sums `(a, b)` over `data`: for each byte,
/// `a = a + byte` and then `b = b + a`, both modulo 256.
pub open spec fn running_sums(data: Seq<u8>) -> (int, int)
    decreases data.len(),
{
    if data.len() == 0 {
        (0, 0)
    } else {
        let (a, b) = running_sums(data.drop_last());
        let a2 = (a + data.last()) % 256;
        (a2, (b + a2) % 256)
    }
}

/// The checksum of `data`: `(a << 8) | b` of its running sums.
pub open spec fn checksum_of(data: Seq<u8>) -> int {
    running_sums(data).0 * 256 + running_sums(data).1
}

/// The frame that carries `payload` as message `id`.
pub open spec fn frame_of(id: u8, payload: Seq<u8>) -> Seq<u8> {
    let covered = seq![id, payload.len() as u8] + payload;
    let (a, b) = running_sums(covered);
    seq![SYNC, SYNC] + covered + seq![b as u8, a as u8]
}

/// What a frame holds: its id and payload, when its sync bytes, length and
/// checksum are right.
pub open spec fn unframe(frame: Seq<u8>) -> Option<(u8, Seq<u8>)> {
    let n = frame.len();
    if n >= 6 && frame[0] == SYNC && frame[1] == SYNC && frame[3] as int == n - 6
        && checksum_of(frame.subrange(2, n - 2)) == frame[n - 2] + 256 * frame[n - 1] {
        Some((frame[2], frame.subrange(4, n - 2)))
    } else {
        None
    }
}

proof fn lemma_sums_in_range(data: Seq<u8>)
    ensures
        0 <= running_sums(data).0 < 256,
        0 <= running_sums(data).1 < 256,
    decreases data.len(),
{
    if data.len() > 0 {
        lemma_sums_in_range(data.drop_last());
    }
}

/// The checksum of `data`.
pub fn checksum(data: &Vec<u8>) -> (r: u16)
    ensures
        r as int == checksum_of(data@),
{
    let mut a: u16 = 0;
    let mut b: u16 = 0;
    let mut i: usize = 0;
    while i < data.len()
        invariant
            i <= data@.len(),
            (a as int, b as int) == running_sums(data@.take(i as int)),
            a < 256,
            b < 256,
        decreases data.len() - i,
    {
        proof {
            assert(data@.take(i + 1).drop_last() =~= data@.take(i as int));
        }
        a = (a + data[i] as u16) % 256;
        b = (b + a) % 256;
        i = i + 1;
    }
    proof {
        assert(data@.take(i as int) =~= data@);
    }
    a * 256 + b
}

/// The frame that carries `payload` as message `id`.
pub fn encode_frame(id: u8, payload: &Vec<u8>) -> (r: Vec<u8>)
    requires
        payload@.len() <= 255,
    ensures
        r@ == frame_of(id, payload@),
{
    let mut covered: Vec<u8> = Vec::new();
    covered.push(id);
    covered.push(payload.len() as u8);
    let mut i: usize = 0;
    while i < payload.len()
        invariant
            i <= payload@.len(),
            covered@ == seq![id, payload@.len() as u8] + payload@.take(i as int),
        decreases payload.len() - i,
    {
        covered.push(payload[i]);
        proof {
            assert(payload@.take(i + 1) =~= payload@.take(i as int).push(payload@[i as int]));
        }
        i = i + 1;
    }
    proof {
        assert(payload@.take(i as int) =~= payload@);
        lemma_sums_in_range(covered@);
    }
    let ck = checksum(&covered);
    let mut frame: Vec<u8> = Vec::new();
    frame.push(SYNC);
    frame.push(SYNC);
    let ghost c = covered@;
    frame.append(&mut covered);
    frame.push((ck % 256) as u8);
    frame.push((ck / 256) as u8);
    proof {
        assert(frame@ =~= frame_of(id, payload@));
    }
    frame
}

/// The id and payload of a frame, when its sync bytes, length byte and
/// checksum are right.
pub fn decode_frame(frame: &Vec<u8>) -> (r: Option<(u8, Vec<u8>)>)
    ensures
        match r {
            Some((id, payload)) => unframe(frame@) == Some((id, payload@)),
            None => unframe(frame@) is None,
        },
{
    let n = frame.len();
    if n < 6 || frame[0] != SYNC || frame[1] != SYNC || frame[3] as usize != n - 6 {
        return None;
    }
    let mut covered: Vec<u8> = Vec::new();
    let mut i: usize = 2;
    while i < n - 2
        invariant
            n == frame@.len(),
            n >= 6,
            2 <= i <= n - 2,
            covered@ == frame@.subrange(2, i as int),
        decreases n - 2 - i,
    {
        covered.push(frame[i]);
        proof {
            assert(frame@.subrange(2, i + 1) =~= frame@.subrange(2, i as int).push(frame@[i as int]));
        }
        i = i + 1;
    }
    let ck = checksum(&covered);
    if ck as u32 != frame[n - 2] as u32 + 256 * frame[n - 1] as u32 {
        return None;
    }
    let mut payload: Vec<u8> = Vec::new();
    let mut j: usize = 4;
    while j < n - 2
        invariant
            n == frame@.len(),
            n >= 6,
            4 <= j <= n - 2,
            payload@ == frame@.subrange(4, j as int),
        decreases n - 2 - j,
    {
        payload.push(frame[j]);
        proof {
            assert(frame@.subrange(4, j + 1) =~= frame@.subrange(4, j as int).push(frame@[j as int]));
        }
        j = j + 1;
    }
    Some((frame[2], payload))
}

/// Decoding a frame gives back what was encoded.
pub proof fn lemma_frame_round_trip(id: u8, payload: Seq<u8>)
    requires
        payload.len() <= 255,
    ensures
        unframe(frame_of(id, payload)) == Some((id, payload)),
{
    let covered = seq![id, payload.len() as u8] + payload;
    let f = frame_of(id, payload);
    let n = f.len();
    lemma_sums_in_range(covered);
    assert(f.subrange(2, n - 2) =~= covered);
    assert(f.subrange(4, n - 2) =~= payload);
}

/// Every frame is `FRAME_OVERHEAD` bytes longer than its payload, so a
/// message's frame takes exactly its buffer size (`MsgSpec::frame`), the
/// size every emitter declares and allocates.
pub proof fn lemma_frame_size(m: MsgSpec, id: u8, payload: Seq<u8>)
    requires
        payload.len() == m.payload(),
    ensures
        frame_of(id, payload).len() == payload.len() + FRAME_OVERHEAD,
        frame_of(id, payload).len() == m.frame(),
{
}

/// The value a setter stores: `v` brought into `[min, max]`.
pub open spec fn clamped(b: Bounds<i64>, v: int) -> int {
    if v < b.min {
        b.min as int
    } else if v > b.max {
        b.max as int
    } else {
        v
    }
}

/// The value an emitted setter stores for `v`: the nearest value of
/// `[min, max]`.
pub fn clamp(b: &Bounds<i64>, v: i64) -> (r: i64)
    requires
        b.min <= b.max,
    ensures
        r == clamped(*b, v as int),
{
    if v < b.min {
        b.min
    } else if v > b.max {
        b.max
    } else {
        v
    }
}

/// Clamping never fails and settles at once: an out-of-range value becomes
/// the nearest bound, an in-range value stays, and setting the same value
/// again stores the same thing.
pub proof fn lemma_clamp_idempotent(b: Bounds<i64>, v: int)
    requires
        b.min <= b.max,
    ensures
        b.min <= clamped(b, v) <= b.max,
        v < b.min ==> clamped(b, v) == b.min,
        v > b.max ==> clamped(b, v) == b.max,
        b.min <= v <= b.max ==> clamped(b, v) == v,
        clamped(b, clamped(b, v)) == clamped(b, v),
{
}

/// The C type that holds a scalar field; a byte array is passed as text.
pub open spec fn c_value_type(t: Type) -> Seq<char> {
    match t {
        Type::I8(_) => "int8_t"@,
        Type::I16(_) => "int16_t"@,
        Type::I32(_) => "int32_t"@,
        Type::U8(_) => "uint8_t"@,
        Type::U16(_) => "uint16_t"@,
        Type::U32(_) => "uint32_t"@,
        Type::F32(_) => "float"@,
        Type::CHARS(_) => "const char*"@,
    }
}

/// The C type that holds a scalar field; a byte array is passed as text.
pub fn value_type(t: &Type) -> (r: &'static str)
    ensures
        r@ == c_value_type(*t),
{
    match t {
        Type::I8(_) => "int8_t",
        Type::I16(_) => "int16_t",
        Type::I32(_) => "int32_t",
        Type::U8(_) => "uint8_t",
        Type::U16(_) => "uint16_t",
        Type::U32(_) => "uint32_t",
        Type::F32(_) => "float",
        Type::CHARS(_) => "const char*",
    }
}

/// The exact literals of a scalar type's bounds: decimal integers, or
/// hexadecimal floating-point literals.
pub open spec fn bound_literals(t: Type) -> (Seq<char>, Seq<char>) {
    match t {
        Type::F32(b) => (b.min.hex_text(), b.max.hex_text()),
        Type::CHARS(_) => (Seq::empty(), Seq::empty()),
        _ => (int_text(t.int_bounds().unwrap().min as int), int_text(t.int_bounds().unwrap().max as int)),
    }
}

/// The exact literals of a scalar type's bounds.
pub fn bound_texts(t: &Type) -> (r: (String, String))
    ensures
        (r.0@, r.1@) == bound_literals(*t),
{
    match t {
        Type::F32(b) => (b.min.to_hex_literal(), b.max.to_hex_literal()),
        Type::CHARS(_) => (String::new(), String::new()),
        _ => {
            let b = t.get_int_bounds().unwrap();
            (i64_text(b.min), i64_text(b.max))
        },
    }
}

/// C statements that write a field at `buffer+offset` in wire order and
/// advance `offset`: scalars little-endian in their width, whatever the
/// host's byte order; byte arrays as they are. `place` is the expression
/// prefix that reaches the field (`msg->` or `_`).
pub open spec fn c_put_field(place: Seq<char>, f: Field) -> Seq<char> {
    let v = place + f.name@;
    let w = digits(f.t.size());
    match f.t {
        Type::CHARS(_) => "  memcpy(buffer+offset, "@ + v + ", "@ + w + ");\n  offset += "@ + w + ";"@,
        Type::F32(_) => "  { uint32_t bits; memcpy(&bits, &"@ + v
            + ", 4); put_le(buffer+offset, bits, 4); }\n  offset += 4;"@,
        _ => "  put_le(buffer+offset, (uint32_t)"@ + v + ", "@ + w + ");\n  offset += "@ + w + ";"@,
    }
}

/// C statements that read a field written by `c_put_field` back.
pub open spec fn c_get_field(place: Seq<char>, f: Field) -> Seq<char> {
    let v = place + f.name@;
    let w = digits(f.t.size());
    match f.t {
        Type::CHARS(_) => "  memcpy("@ + v + ", buffer+offset, "@ + w + ");\n  offset += "@ + w + ";"@,
        Type::F32(_) => "  { uint32_t bits = get_le(buffer+offset, 4); memcpy(&"@ + v
            + ", &bits, 4); }\n  offset += 4;"@,
        _ => "  "@ + v + " = ("@ + c_value_type(f.t) + ")get_le(buffer+offset, "@ + w + ");\n  offset += "@ + w
            + ";"@,
    }
}

/// C statements that write a field in wire order.
pub fn put_field(place: &str, f: &Field) -> (r: String)
    ensures
        r@ == c_put_field(place@, *f),
{
    let w = nat_text(f.t.get_size() as u128);
    let mut v = place.to_owned();
    v.append(f.name.as_str());
    let mut s: String;
    match f.t {
        Type::CHARS(_) => {
            s = "  memcpy(buffer+offset, ".to_owned();
            s.append(v.as_str());
            s.append(", ");
            s.append(w.as_str());
            s.append(");\n  offset += ");
            s.append(w.as_str());
            s.append(";");
        },
        Type::F32(_) => {
            s = "  { uint32_t bits; memcpy(&bits, &".to_owned();
            s.append(v.as_str());
            s.append(", 4); put_le(buffer+offset, bits, 4); }\n  offset += 4;");
        },
        _ => {
            s = "  put_le(buffer+offset, (uint32_t)".to_owned();
            s.append(v.as_str());
            s.append(", ");
            s.append(w.as_str());
            s.append(");\n  offset += ");
            s.append(w.as_str());
            s.append(";");
        },
    }
    assert(s@ =~= c_put_field(place@, *f));
    s
}

/// C statements that read a field written by `put_field` back.
pub fn get_field(place: &str, f: &Field) -> (r: String)
    ensures
        r@ == c_get_field(place@, *f),
{
    let w = nat_text(f.t.get_size() as u128);
    let mut v = place.to_owned();
    v.append(f.name.as_str());
    let mut s: String;
    match f.t {
        Type::CHARS(_) => {
            s = "  memcpy(".to_owned();
            s.append(v.as_str());
            s.append(", buffer+offset, ");
            s.append(w.as_str());
            s.append(");\n  offset += ");
            s.append(w.as_str());
            s.append(";");
        },
        Type::F32(_) => {
            s = "  { uint32_t bits = get_le(buffer+offset, 4); memcpy(&".to_owned();
            s.append(v.as_str());
            s.append(", &bits, 4); }\n  offset += 4;");
        },
        _ => {
            s = "  ".to_owned();
            s.append(v.as_str());
            s.append(" = (");
            s.append(value_type(&f.t));
            s.append(")get_le(buffer+offset, ");
            s.append(w.as_str());
            s.append(");\n  offset += ");
            s.append(w.as_str());
            s.append(";");
        },
    }
    assert(s@ =~= c_get_field(place@, *f));
    s
}

/// The C prototypes of the shared routines.
pub open spec fn c_routine_decls() -> Seq<char> {
    "uint16_t compute_cheksum(uint8_t *buffer, int len);\nvoid put_le(uint8_t *buffer, uint32_t value, int width);\nuint32_t get_le(uint8_t *buffer, int width);"@
}

/// The C prototypes of the shared routines.
pub fn routine_decls() -> (r: String)
    ensures
        r@ == c_routine_decls(),
{
    "uint16_t compute_cheksum(uint8_t *buffer, int len);\nvoid put_le(uint8_t *buffer, uint32_t value, int width);\nuint32_t get_le(uint8_t *buffer, int width);".to_owned()
}

/// The shared C routines: the checksum of `checksum_of`, and the
/// little-endian writing and reading of scalars.
pub open spec fn c_routines() -> Seq<char> {
    "uint16_t compute_cheksum(uint8_t *buffer, int len) {\n  uint8_t ck_a = 0, ck_b = 0;\n  for(int i=0; i<len; i++) {\n    ck_a = (ck_a + buffer[i]);       // % 256 by overflow\n    ck_b = (ck_b + ck_a);    // % 256 by overflow\n  }\n  uint16_t ck = (ck_a << 8) | ck_b;\n  return ck;\n}\n\nvoid put_le(uint8_t *buffer, uint32_t value, int width) {\n  for(int i=0; i<width; i++) {\n    buffer[i] = (value >> (8*i)) & 0xFF;\n  }\n}\n\nuint32_t get_le(uint8_t *buffer, int width) {\n  uint32_t value = 0;\n  for(int i=width-1; i>=0; i--) {\n    value = (value << 8) | buffer[i];\n  }\n  return value;\n}"@
}

/// The shared C routines.
pub fn routines() -> (r: String)
    ensures
        r@ == c_routines(),
{
    "uint16_t compute_cheksum(uint8_t *buffer, int len) {\n  uint8_t ck_a = 0, ck_b = 0;\n  for(int i=0; i<len; i++) {\n    ck_a = (ck_a + buffer[i]);       // % 256 by overflow\n    ck_b = (ck_b + ck_a);    // % 256 by overflow\n  }\n  uint16_t ck = (ck_a << 8) | ck_b;\n  return ck;\n}\n\nvoid put_le(uint8_t *buffer, uint32_t value, int width) {\n  for(int i=0; i<width; i++) {\n    buffer[i] = (value >> (8*i)) & 0xFF;\n  }\n}\n\nuint32_t get_le(uint8_t *buffer, int width) {\n  uint32_t value = 0;\n  for(int i=width-1; i>=0; i--) {\n    value = (value << 8) | buffer[i];\n  }\n  return value;\n}".to_owned()
}

} // verus!

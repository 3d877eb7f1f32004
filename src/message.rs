//! The schema model: field types with their legal ranges, fields and messages.
use crate::errors::ParserError;
use crate::float::{Double, F32_MAX_BITS, F32_MIN_BITS};
use crate::tree::{find, lookup, Node};
use vstd::prelude::*;

verus! {

/// The legal range `[min, max]` of a scalar field.
#[derive(Debug, Clone, Copy, PartialEq, Eq, Structural)]
pub struct Bounds<T> {
    pub min: T,
    pub max: T,
}

/// The type of a field: an integer or float with its legal range, or a byte
/// array of fixed length.
#[allow(non_camel_case_types)]
#[derive(Debug, Clone, Copy, PartialEq, Eq, Structural)]
pub enum Type {
    I8(Bounds<i64>),
    I16(Bounds<i64>),
    I32(Bounds<i64>),
    U8(Bounds<i64>),
    U16(Bounds<i64>),
    U32(Bounds<i64>),
    F32(Bounds<Double>),
    CHARS(usize),
}

/// A named, typed field of a message.
#[derive(Debug, Clone)]
pub struct Field {
    pub name: String,
    pub t: Type,
}

/// A message: its name, its identifier on the wire and its fields in payload
/// order.
#[derive(Debug, Clone)]
pub struct MsgSpec {
    pub name: String,
    pub id: usize,
    pub fields: Vec<Field>,
}

/// Bytes of a frame around the payload: two sync bytes, the id, the length
/// and two checksum bytes.
pub const FRAME_OVERHEAD: usize = 6;

/// The largest value of the id byte and of the length byte of a frame.
pub const MAX_WIRE_BYTE: usize = 255;

/// Length of a byte array declared without a size.
pub const DEFAULT_CHARS_SIZE: usize = 10;

/// The bounds of a type's whole native range.
pub open spec fn int_range(min: int, max: int) -> Bounds<i64> {
    Bounds { min: min as i64, max: max as i64 }
}

/// The type a bare type name stands for, with its native range.
pub open spec fn type_of_name(s: Seq<char>) -> Option<Type> {
    if s == "i8"@ {
        Some(Type::I8(int_range(-128, 127)))
    } else if s == "i16"@ {
        Some(Type::I16(int_range(-32768, 32767)))
    } else if s == "i32"@ {
        Some(Type::I32(int_range(-2147483648, 2147483647)))
    } else if s == "u8"@ {
        Some(Type::U8(int_range(0, 255)))
    } else if s == "u16"@ {
        Some(Type::U16(int_range(0, 65535)))
    } else if s == "u32"@ {
        Some(Type::U32(int_range(0, 4294967295)))
    } else if s == "f32"@ {
        Some(Type::F32(Bounds { min: Double { bits: F32_MIN_BITS }, max: Double { bits: F32_MAX_BITS } }))
    } else if s == "chars"@ {
        Some(Type::CHARS(DEFAULT_CHARS_SIZE))
    } else {
        None
    }
}

/// An integer bound override: absent keeps `native`; present it must be an
/// integer on the legal side of `native`.
pub open spec fn int_override(v: Option<Node>, native: i64, lower: bool) -> Option<i64> {
    match v {
        None => Some(native),
        Some(Node::Int(x)) => if (lower && x >= native) || (!lower && x <= native) {
            Some(x)
        } else {
            None
        },
        Some(_) => None,
    }
}

/// A float bound override: absent keeps `native`; present it must be a float
/// on the legal side of `native`.
pub open spec fn float_override(v: Option<Node>, native: Double, lower: bool) -> Option<Double> {
    match v {
        None => Some(native),
        Some(Node::Float(x)) => if (lower && native.spec_le(x)) || (!lower && x.spec_le(native)) {
            Some(x)
        } else {
            None
        },
        Some(_) => None,
    }
}

/// Integer bounds narrowed by the `min` / `max` entries of a declaration.
pub open spec fn int_bounds(attrs: Seq<(String, Node)>, native: Bounds<i64>) -> Result<Bounds<i64>, ParserError> {
    let lo = int_override(lookup(attrs, "min"@), native.min, true);
    let hi = int_override(lookup(attrs, "max"@), native.max, false);
    if lo is Some && hi is Some && lo.unwrap() < hi.unwrap() {
        Ok(Bounds { min: lo.unwrap(), max: hi.unwrap() })
    } else {
        Err(ParserError::BoundsInvalid)
    }
}

/// Float bounds narrowed by the `min` / `max` entries of a declaration.
pub open spec fn float_bounds(attrs: Seq<(String, Node)>, native: Bounds<Double>) -> Result<Bounds<Double>, ParserError> {
    let lo = float_override(lookup(attrs, "min"@), native.min, true);
    let hi = float_override(lookup(attrs, "max"@), native.max, false);
    if lo is Some && hi is Some && lo.unwrap().spec_lt(hi.unwrap()) {
        Ok(Bounds { min: lo.unwrap(), max: hi.unwrap() })
    } else {
        Err(ParserError::BoundsInvalid)
    }
}

/// The array length given by the `size` entry of a declaration.
pub open spec fn chars_size(attrs: Seq<(String, Node)>) -> Result<Type, ParserError> {
    match lookup(attrs, "size"@) {
        None => Err(ParserError::SizeNotFound),
        Some(Node::Int(n)) => if 0 < n && n <= usize::MAX {
            Ok(Type::CHARS(n as usize))
        } else {
            Err(ParserError::CharSizeInvalid)
        },
        Some(_) => Err(ParserError::CharSizeInvalid),
    }
}

/// The type a table declaration `{type, min?, max?, size?}` stands for.
pub open spec fn type_of_table(attrs: Seq<(String, Node)>) -> Result<Type, ParserError> {
    match lookup(attrs, "type"@) {
        None => Err(ParserError::TypeNotFound),
        Some(Node::Str(s)) => match type_of_name(s@) {
            None => Err(ParserError::TypeInvalid),
            Some(Type::I8(b)) => match int_bounds(attrs, b) { Ok(n) => Ok(Type::I8(n)), Err(e) => Err(e) },
            Some(Type::I16(b)) => match int_bounds(attrs, b) { Ok(n) => Ok(Type::I16(n)), Err(e) => Err(e) },
            Some(Type::I32(b)) => match int_bounds(attrs, b) { Ok(n) => Ok(Type::I32(n)), Err(e) => Err(e) },
            Some(Type::U8(b)) => match int_bounds(attrs, b) { Ok(n) => Ok(Type::U8(n)), Err(e) => Err(e) },
            Some(Type::U16(b)) => match int_bounds(attrs, b) { Ok(n) => Ok(Type::U16(n)), Err(e) => Err(e) },
            Some(Type::U32(b)) => match int_bounds(attrs, b) { Ok(n) => Ok(Type::U32(n)), Err(e) => Err(e) },
            Some(Type::F32(b)) => match float_bounds(attrs, b) { Ok(n) => Ok(Type::F32(n)), Err(e) => Err(e) },
            Some(Type::CHARS(_)) => chars_size(attrs),
        },
        Some(_) => Err(ParserError::TypeInvalid),
    }
}

/// The type a declaration stands for: a bare type name or a table.
pub open spec fn type_of_decl(raw: Node) -> Result<Type, ParserError> {
    match raw {
        Node::Str(s) => match type_of_name(s@) {
            Some(t) => Ok(t),
            None => Err(ParserError::TypeInvalid),
        },
        Node::Table(attrs) => type_of_table(attrs@),
        _ => Err(ParserError::TypeInvalid),
    }
}

/// Whether a type keeps the model's invariants: the bounds of a scalar type
/// are ordered (`min < max`), those of a float are finite values of
/// single-precision range, and an array has a positive length.
pub open spec fn well_formed_type(t: Type) -> bool {
    match t {
        Type::F32(b) => b.min.spec_lt(b.max) && b.min.in_f32_range() && b.max.in_f32_range(),
        Type::CHARS(n) => n > 0,
        Type::I8(b) => b.min < b.max,
        Type::I16(b) => b.min < b.max,
        Type::I32(b) => b.min < b.max,
        Type::U8(b) => b.min < b.max,
        Type::U16(b) => b.min < b.max,
        Type::U32(b) => b.min < b.max,
    }
}

impl Type {
    /// The bounds of an integer type.
    pub open spec fn int_bounds(self) -> Option<Bounds<i64>> {
        match self {
            Type::I8(b) => Some(b),
            Type::I16(b) => Some(b),
            Type::I32(b) => Some(b),
            Type::U8(b) => Some(b),
            Type::U16(b) => Some(b),
            Type::U32(b) => Some(b),
            _ => None,
        }
    }

    /// The bounds of an integer type.
    pub fn get_int_bounds(&self) -> (r: Option<Bounds<i64>>)
        ensures
            r == self.int_bounds(),
    {
        match self {
            Type::I8(b) | Type::I16(b) | Type::I32(b) | Type::U8(b) | Type::U16(b) | Type::U32(b) => Some(*b),
            _ => None,
        }
    }

    /// Number of payload bytes a field of this type takes.
    pub open spec fn size(self) -> nat {
        match self {
            Type::I8(_) => 1,
            Type::I16(_) => 2,
            Type::I32(_) => 4,
            Type::U8(_) => 1,
            Type::U16(_) => 2,
            Type::U32(_) => 4,
            Type::F32(_) => 4,
            Type::CHARS(n) => n as nat,
        }
    }

    pub fn get_size(&self) -> (r: usize)
        ensures
            r == self.size(),
    {
        match self {
            Type::I8(_) => 1,
            Type::I16(_) => 2,
            Type::I32(_) => 4,
            Type::U8(_) => 1,
            Type::U16(_) => 2,
            Type::U32(_) => 4,
            Type::F32(_) => 4,
            Type::CHARS(size) => *size,
        }
    }

    /// The type a bare type name stands for, with its native range.
    pub fn from_string(s: &str) -> (r: Result<Type, ParserError>)
        ensures
            r == match type_of_name(s@) {
                Some(t) => Ok(t),
                None => Err::<Type, ParserError>(ParserError::TypeInvalid),
            },
    {
        let s = s.to_owned();
        if s == "i8".to_owned() {
            Ok(Type::I8(Bounds { min: -128, max: 127 }))
        } else if s == "i16".to_owned() {
            Ok(Type::I16(Bounds { min: -32768, max: 32767 }))
        } else if s == "i32".to_owned() {
            Ok(Type::I32(Bounds { min: -2147483648, max: 2147483647 }))
        } else if s == "u8".to_owned() {
            Ok(Type::U8(Bounds { min: 0, max: 255 }))
        } else if s == "u16".to_owned() {
            Ok(Type::U16(Bounds { min: 0, max: 65535 }))
        } else if s == "u32".to_owned() {
            Ok(Type::U32(Bounds { min: 0, max: 4294967295 }))
        } else if s == "f32".to_owned() {
            Ok(Type::F32(Bounds { min: Double { bits: F32_MIN_BITS }, max: Double { bits: F32_MAX_BITS } }))
        } else if s == "chars".to_owned() {
            Ok(Type::CHARS(DEFAULT_CHARS_SIZE))
        } else {
            Err(ParserError::TypeInvalid)
        }
    }
}

fn int_override_of(attrs: &Vec<(String, Node)>, key: &str, native: i64, lower: bool) -> (r: Option<i64>)
    ensures
        r == int_override(lookup(attrs@, key@), native, lower),
{
    match find(attrs, key) {
        None => Some(native),
        Some(i) => match &attrs[i].1 {
            Node::Int(x) => if (lower && *x >= native) || (!lower && *x <= native) {
                Some(*x)
            } else {
                None
            },
            _ => None,
        },
    }
}

fn float_override_of(attrs: &Vec<(String, Node)>, key: &str, native: Double, lower: bool) -> (r: Option<Double>)
    ensures
        r == float_override(lookup(attrs@, key@), native, lower),
{
    match find(attrs, key) {
        None => Some(native),
        Some(i) => match &attrs[i].1 {
            Node::Float(x) => if (lower && native.at_most(x)) || (!lower && x.at_most(&native)) {
                Some(*x)
            } else {
                None
            },
            _ => None,
        },
    }
}

/// Integer bounds narrowed by the `min` / `max` entries of a declaration.
pub fn set_int_bounds(attrs: &Vec<(String, Node)>, native: Bounds<i64>) -> (r: Result<Bounds<i64>, ParserError>)
    ensures
        r == int_bounds(attrs@, native),
{
    let lo = int_override_of(attrs, "min", native.min, true);
    let hi = int_override_of(attrs, "max", native.max, false);
    match (lo, hi) {
        (Some(a), Some(b)) => if a < b {
            Ok(Bounds { min: a, max: b })
        } else {
            Err(ParserError::BoundsInvalid)
        },
        _ => Err(ParserError::BoundsInvalid),
    }
}

/// Float bounds narrowed by the `min` / `max` entries of a declaration.
pub fn set_float_bounds(attrs: &Vec<(String, Node)>, native: Bounds<Double>) -> (r: Result<Bounds<Double>, ParserError>)
    ensures
        r == float_bounds(attrs@, native),
{
    let lo = float_override_of(attrs, "min", native.min, true);
    let hi = float_override_of(attrs, "max", native.max, false);
    match (lo, hi) {
        (Some(a), Some(b)) => if a.less_than(&b) {
            Ok(Bounds { min: a, max: b })
        } else {
            Err(ParserError::BoundsInvalid)
        },
        _ => Err(ParserError::BoundsInvalid),
    }
}

fn chars_size_of(attrs: &Vec<(String, Node)>) -> (r: Result<Type, ParserError>)
    ensures
        r == chars_size(attrs@),
{
    match find(attrs, "size") {
        None => Err(ParserError::SizeNotFound),
        Some(i) => match &attrs[i].1 {
            Node::Int(n) => if 0 < *n && (*n as u64) <= (usize::MAX as u64) {
                Ok(Type::CHARS(*n as usize))
            } else {
                Err(ParserError::CharSizeInvalid)
            },
            _ => Err(ParserError::CharSizeInvalid),
        },
    }
}

fn type_of_table_exec(attrs: &Vec<(String, Node)>) -> (r: Result<Type, ParserError>)
    ensures
        r == type_of_table(attrs@),
{
    match find(attrs, "type") {
        None => Err(ParserError::TypeNotFound),
        Some(i) => match &attrs[i].1 {
            Node::Str(s) => match Type::from_string(s.as_str()) {
                Err(e) => Err(e),
                Ok(Type::I8(b)) => match set_int_bounds(attrs, b) { Ok(n) => Ok(Type::I8(n)), Err(e) => Err(e) },
                Ok(Type::I16(b)) => match set_int_bounds(attrs, b) { Ok(n) => Ok(Type::I16(n)), Err(e) => Err(e) },
                Ok(Type::I32(b)) => match set_int_bounds(attrs, b) { Ok(n) => Ok(Type::I32(n)), Err(e) => Err(e) },
                Ok(Type::U8(b)) => match set_int_bounds(attrs, b) { Ok(n) => Ok(Type::U8(n)), Err(e) => Err(e) },
                Ok(Type::U16(b)) => match set_int_bounds(attrs, b) { Ok(n) => Ok(Type::U16(n)), Err(e) => Err(e) },
                Ok(Type::U32(b)) => match set_int_bounds(attrs, b) { Ok(n) => Ok(Type::U32(n)), Err(e) => Err(e) },
                Ok(Type::F32(b)) => match set_float_bounds(attrs, b) { Ok(n) => Ok(Type::F32(n)), Err(e) => Err(e) },
                Ok(Type::CHARS(_)) => chars_size_of(attrs),
            },
            _ => Err(ParserError::TypeInvalid),
        },
    }
}

/// The native range of every named type is ordered.
proof fn lemma_named_types_well_formed(s: Seq<char>)
    ensures
        type_of_name(s) matches Some(t) ==> well_formed_type(t),
{
    let lo = Double { bits: F32_MIN_BITS };
    let hi = Double { bits: F32_MAX_BITS };
    assert((0xC7EF_FFFF_E000_0000u64 >> 52u64) & 0x7ffu64 == 0x47eu64) by (bit_vector);
    assert((0x47EF_FFFF_E000_0000u64 >> 52u64) & 0x7ffu64 == 0x47eu64) by (bit_vector);
    assert(0xC7EF_FFFF_E000_0000u64 >> 63u64 == 1u64) by (bit_vector);
    assert(0x47EF_FFFF_E000_0000u64 >> 63u64 == 0u64) by (bit_vector);
    assert(0xC7EF_FFFF_E000_0000u64 & 0x7fff_ffff_ffff_ffffu64 == 0x47EF_FFFF_E000_0000u64) by (bit_vector);
    assert(lo.spec_lt(hi));
}

impl Type {
    /// The type a declaration stands for: a bare type name, or a table
    /// `{type, min?, max?, size?}` whose overrides may only narrow the native
    /// range.
    pub fn from_toml(raw: &Node) -> (r: Result<Type, ParserError>)
        ensures
            r == type_of_decl(*raw),
            r matches Ok(t) ==> well_formed_type(t),
    {
        proof {
            if let Node::Str(s) = raw {
                lemma_named_types_well_formed(s@);
            }
        }
        match raw {
            Node::Str(s) => Type::from_string(s.as_str()),
            Node::Table(attrs) => type_of_table_exec(attrs),
            _ => Err(ParserError::TypeInvalid),
        }
    }
}

/// Sum of the sizes of the fields' types.
pub open spec fn payload_size(fields: Seq<Field>) -> nat
    decreases fields.len(),
{
    if fields.len() == 0 {
        0
    } else {
        payload_size(fields.drop_last()) + fields.last().t.size()
    }
}

proof fn lemma_payload_prefix(fields: Seq<Field>, i: int)
    requires
        0 <= i <= fields.len(),
    ensures
        payload_size(fields.take(i)) <= payload_size(fields),
    decreases fields.len(),
{
    if i < fields.len() {
        assert(fields.take(i) =~= fields.drop_last().take(i));
        lemma_payload_prefix(fields.drop_last(), i);
    } else {
        assert(fields.take(i) =~= fields);
    }
}

impl MsgSpec {
    /// Bytes of the payload: the sum of the field sizes.
    pub open spec fn payload(self) -> nat {
        payload_size(self.fields@)
    }

    /// Bytes of a whole frame: the payload and the six framing bytes.
    pub open spec fn frame(self) -> nat {
        self.payload() + FRAME_OVERHEAD as nat
    }

    /// Whether the frame size of this message is a `usize`.
    pub open spec fn fits(self) -> bool {
        self.frame() <= usize::MAX
    }

    /// Returns the buffer size a frame of this message needs: the payload
    /// and 2 start bytes, 1 id byte, 1 length byte and 2 checksum bytes.
    pub fn get_buffer_size(&self) -> (r: usize)
        requires
            self.fits(),
        ensures
            r == self.frame(),
    {
        self.get_payload_size() + FRAME_OVERHEAD
    }

    /// Returns the payload size: the sum of the field sizes, without the
    /// framing bytes.
    pub fn get_payload_size(&self) -> (r: usize)
        requires
            self.fits(),
        ensures
            r == self.payload(),
    {
        let mut total: usize = 0;
        let mut i: usize = 0;
        while i < self.fields.len()
            invariant
                i <= self.fields@.len(),
                self.fits(),
                total == payload_size(self.fields@.take(i as int)),
            decreases self.fields.len() - i,
        {
            proof {
                assert(self.fields@.take(i + 1).drop_last() =~= self.fields@.take(i as int));
                lemma_payload_prefix(self.fields@, i + 1);
            }
            total = total + self.fields[i].t.get_size();
            i = i + 1;
        }
        proof {
            assert(self.fields@.take(i as int) =~= self.fields@);
        }
        total
    }

    /// The message that carries a peer's unique identifier: `InterMcuUid`,
    /// id 0, one `u32` field `uid` over its whole range.
    pub fn uid_msg() -> (r: MsgSpec)
        ensures
            r.name@ == "InterMcuUid"@,
            r.id == 0,
            r.fields@.len() == 1,
            r.fields@[0].name@ == "uid"@,
            r.fields@[0].t == Type::U32(int_range(0, 4294967295)),
    {
        let mut fields: Vec<Field> = Vec::new();
        fields.push(Field { name: "uid".to_owned(), t: Type::U32(Bounds { min: 0, max: 4294967295 }) });
        MsgSpec { name: "InterMcuUid".to_owned(), id: 0, fields }
    }
}

/// Every type a declaration can give keeps the model's invariants
/// (`well_formed_type`).
pub proof fn lemma_decl_well_formed(raw: Node)
    ensures
        type_of_decl(raw) matches Ok(t) ==> well_formed_type(t),
{
    match raw {
        Node::Str(s) => lemma_named_types_well_formed(s@),
        Node::Table(attrs) => {
            match lookup(attrs@, "type"@) {
                Some(Node::Str(s)) => lemma_named_types_well_formed(s@),
                _ => {},
            }
        },
        _ => {},
    }
}

/// Whether a message can be written out: its id and its payload length each
/// fit the one byte the frame gives them, and all its field types are well
/// formed.
pub open spec fn emittable(m: MsgSpec) -> bool {
    m.fits() && m.id <= MAX_WIRE_BYTE && m.payload() <= MAX_WIRE_BYTE && forall|j: int| 0 <= j < m.fields@.len() ==> well_formed_type(#[trigger] m.fields@[j].t)
}

/// Whether all messages can be written out.
pub open spec fn all_emittable(msgs: Seq<MsgSpec>) -> bool {
    forall|i: int| 0 <= i < msgs.len() ==> emittable(#[trigger] msgs[i])
}

fn type_well_formed(t: &Type) -> (r: bool)
    ensures
        r == well_formed_type(*t),
{
    let lo = Double { bits: F32_MIN_BITS };
    let hi = Double { bits: F32_MAX_BITS };
    match t {
        Type::F32(b) => b.min.less_than(&b.max) && lo.at_most(&b.min) && b.min.at_most(&hi)
            && lo.at_most(&b.max) && b.max.at_most(&hi),
        Type::CHARS(n) => *n > 0,
        Type::I8(b) | Type::I16(b) | Type::I32(b) | Type::U8(b) | Type::U16(b) | Type::U32(b) => b.min < b.max,
    }
}

/// Whether all messages can be written out: each id and payload length fits
/// a byte and each field type is well formed.
pub fn check_messages(msgs: &Vec<MsgSpec>) -> (r: bool)
    ensures
        r == all_emittable(msgs@),
{
    let mut i: usize = 0;
    while i < msgs.len()
        invariant
            i <= msgs@.len(),
            forall|k: int| 0 <= k < i ==> emittable(#[trigger] msgs@[k]),
        decreases msgs.len() - i,
    {
        let m = &msgs[i];
        if m.id > MAX_WIRE_BYTE {
            return false;
        }
        let mut total: usize = 0;
        let mut j: usize = 0;
        while j < m.fields.len()
            invariant
                j <= m.fields@.len(),
                total == payload_size(m.fields@.take(j as int)),
                total <= MAX_WIRE_BYTE,
                m.id <= MAX_WIRE_BYTE,
                i < msgs@.len(),
                m == msgs@[i as int],
                forall|k: int| 0 <= k < j ==> well_formed_type(#[trigger] m.fields@[k].t),
            decreases m.fields.len() - j,
        {
            proof {
                assert(m.fields@.take(j + 1).drop_last() =~= m.fields@.take(j as int));
            }
            if !type_well_formed(&m.fields[j].t) {
                proof {
                    assert(!emittable(msgs@[i as int]));
                }
                return false;
            }
            let size = m.fields[j].t.get_size();
            if size > MAX_WIRE_BYTE - total {
                proof {
                    lemma_payload_prefix(m.fields@, j + 1);
                    assert(!emittable(msgs@[i as int]));
                }
                return false;
            }
            total = total + size;
            j = j + 1;
        }
        proof {
            assert(m.fields@.take(j as int) =~= m.fields@);
        }
        i = i + 1;
    }
    true
}

} // verus!

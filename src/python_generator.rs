//! The Python emitter: one module `messages.py` with the checksum routine
//! and a class per message, packing and unpacking fields with `bitstring`.
use crate::generator::{files_view, Generator};
use crate::message::{all_emittable, emittable, well_formed_type, Field, MsgSpec, Type};
use crate::protocol::{bound_literals, bound_texts};
use crate::text::{digits, join, join_texts, nat_text, views};
use vstd::prelude::*;

verus! {

/// The Python emitter.
pub struct PythonGenerator;

/// The statement that gives a field its initial value.
pub open spec fn py_init(f: Field) -> Seq<char> {
    match f.t {
        Type::F32(_) => "self._"@ + f.name@ + " = 0.0"@,
        Type::CHARS(size) => "self._"@ + f.name@ + " = bytes("@ + digits(size as nat) + ")"@,
        _ => "self._"@ + f.name@ + " = 0"@,
    }
}

/// A line of `__init__`.
pub open spec fn py_decl_line(f: Field) -> Seq<char> {
    "\t\t"@ + py_init(f)
}

/// The property setter of a field: it clamps scalars into their bounds,
/// rounds floats to single precision, as the wire carries them, and pads or
/// cuts byte arrays to their length.
pub open spec fn py_setter(f: Field) -> Seq<char> {
    let n = f.name@;
    let head = "\t@"@ + n + ".setter\n\tdef "@ + n + "(self, "@ + n + "):\n\t\tself._"@ + n;
    match f.t {
        Type::CHARS(size) => head + "=bytes("@ + n + ")[:"@ + digits(size as nat) + "].ljust("@ + digits(size as nat)
            + ", b'\\0')"@,
        Type::F32(_) => head + "=to_f32(clamp(float.fromhex('"@ + bound_literals(f.t).0 + "'), "@ + n
            + ", float.fromhex('"@ + bound_literals(f.t).1 + "')))"@,
        _ => head + "=clamp("@ + bound_literals(f.t).0 + ", "@ + n + ", "@ + bound_literals(f.t).1 + ")"@,
    }
}

/// The property getter and setter of a field.
pub open spec fn py_get_set(f: Field) -> Seq<char> {
    let n = f.name@;
    "\t@property\n\tdef "@ + n + "(self):\n\t\treturn self._"@ + n + "\n\n"@ + py_setter(f)
}

/// The part of `__repr__` that shows one field.
pub open spec fn py_repr_item(f: Field) -> Seq<char> {
    "'"@ + f.name@ + " : {}'.format(self._"@ + f.name@ + ")"@
}

/// The attribute that holds a field.
pub open spec fn py_attr(f: Field) -> Seq<char> {
    "self._"@ + f.name@
}

/// The `bitstring` format of a field: little-endian in its width.
pub open spec fn py_bit_type(f: Field) -> Seq<char> {
    match f.t {
        Type::I8(_) => "intle:8"@,
        Type::I16(_) => "intle:16"@,
        Type::I32(_) => "intle:32"@,
        Type::U8(_) => "uintle:8"@,
        Type::U16(_) => "uintle:16"@,
        Type::U32(_) => "uintle:32"@,
        Type::F32(_) => "floatle:32"@,
        Type::CHARS(n) => "bytes:"@ + digits(n as nat),
    }
}

/// The `__repr__` method of a class.
pub open spec fn py_repr(fields: Seq<Field>) -> Seq<char> {
    "\tdef __repr__(self):\n\t\treturn '\\n'.join(["@ + join(fields.map_values(|f: Field| py_repr_item(f)), ", "@) + "])"@
}

/// The `serialize` method: the whole frame, with sync bytes, id, payload
/// length, the fields little-endian in declaration order and the checksum,
/// low byte first.
pub open spec fn py_serialize(fields: Seq<Field>) -> Seq<char> {
    (if fields.len() == 0 {
        "\tdef serialize(self):\n\t\tpayload = b''\n"@
    } else {
        "\tdef serialize(self):\n\t\tpayload = bitstring.pack('"@ + join(fields.map_values(|f: Field| py_bit_type(f)), ", "@)
            + "', "@ + join(fields.map_values(|f: Field| py_attr(f)), ", "@) + ").bytes\n"@
    }) + "\t\tbody = bytes([self.ID, len(payload)]) + payload\n\t\tck = checksum(body)\n\t\treturn bytes([0xFF, 0xFF]) + body + bytes([ck & 0xFF, (ck >> 8) & 0xFF])"@
}

/// The `deserialize` method: reads the fields of a whole frame, after its
/// four header bytes.
pub open spec fn py_deserialize(fields: Seq<Field>) -> Seq<char> {
    if fields.len() == 0 {
        "\tdef deserialize(self, frame):\n\t\tpass"@
    } else {
        "\tdef deserialize(self, frame):\n\t\ts = bitstring.BitStream(frame[4:self.SIZE-2])\n\t\t"@
            + join(fields.map_values(|f: Field| py_attr(f)), ", "@) + ", = s.unpack('"@
            + join(fields.map_values(|f: Field| py_bit_type(f)), ", "@) + "')"@
    }
}

/// Rounding to single precision, in Python.
pub open spec fn py_to_f32_fn() -> Seq<char> {
    "def to_f32(x):\n\treturn struct.unpack('<f', struct.pack('<f', x))[0]"@
}

/// The checksum routine of the wire protocol, in Python.
pub open spec fn py_checksum_fn() -> Seq<char> {
    "def checksum(data):\n\ta = 0\n\tb = 0\n\tfor x in data:\n\t\ta = (a + x) % 256\n\t\tb = (b + a) % 256\n\treturn (a << 8) | b"@
}

/// The class of a message.
pub open spec fn py_class(m: MsgSpec) -> Seq<char> {
    let fields = m.fields@;
    let decls = if fields.len() == 0 {
        "\t\tpass"@
    } else {
        join(fields.map_values(|f: Field| py_decl_line(f)), "\n"@)
    };
    "class "@ + m.name@ + "(DuckMsg):\n"@ + "\tID = "@ + digits(m.id as nat) + "\n"@ + "\tSIZE = "@
        + digits(m.frame()) + "\n\tdef __init__(self):\n"@ + decls + "\n\n"@ + py_serialize(fields) + "\n\n"@
        + py_deserialize(fields) + "\n\n"@ + py_repr(fields) + "\n\n"@
        + join(fields.map_values(|f: Field| py_get_set(f)), "\n\n"@)
}

/// The dictionary entry from a message id to its class.
pub open spec fn py_dict_line(m: MsgSpec) -> Seq<char> {
    "\t"@ + digits(m.id as nat) + " : "@ + m.name@ + ","@
}

/// The dictionary from message id to class.
pub open spec fn py_dict(msgs: Seq<MsgSpec>) -> Seq<char> {
    "MESSAGES = {\n"@ + join(msgs.map_values(|m: MsgSpec| py_dict_line(m)), "\n"@) + "\n}"@
}

/// The text of `messages.py`.
pub open spec fn py_module(msgs: Seq<MsgSpec>, uid: u32) -> Seq<char> {
    "from duckmsg import DuckMsg, clamp\nimport bitstring\nimport struct"@ + "\n\n"@ + "UID = "@ + digits(uid as nat)
        + "\n\n"@ + py_checksum_fn() + "\n\n"@ + py_to_f32_fn() + "\n\n"@ + join(msgs.map_values(|m: MsgSpec| py_class(m)), "\n\n"@) + "\n\n"@ + py_dict(msgs) + "\n"@
}

impl PythonGenerator {
    fn init_variable(f: &Field) -> (r: String)
        ensures
            r@ == py_decl_line(*f),
    {
        let mut s = "\t\tself._".to_owned();
        s.append(f.name.as_str());
        match f.t {
            Type::F32(_) => s.append(" = 0.0"),
            Type::CHARS(size) => {
                s.append(" = bytes(");
                s.append(nat_text(size as u128).as_str());
                s.append(")");
            },
            _ => s.append(" = 0"),
        }
        proof {
            reveal_strlit("\t\tself._");
            reveal_strlit("\t\t");
            reveal_strlit("self._");
            assert(s@ =~= py_decl_line(*f));
        }
        s
    }

    fn make_get_set(f: &Field) -> (r: String)
        requires
            well_formed_type(f.t),
        ensures
            r@ == py_get_set(*f),
    {
        let n = f.name.as_str();
        let mut s = "\t@property\n\tdef ".to_owned();
        s.append(n);
        s.append("(self):\n\t\treturn self._");
        s.append(n);
        s.append("\n\n");
        let ghost getter = s@;
        let mut setter = "\t@".to_owned();
        setter.append(n);
        setter.append(".setter\n\tdef ");
        setter.append(n);
        setter.append("(self, ");
        setter.append(n);
        setter.append("):\n\t\tself._");
        setter.append(n);
        match f.t {
            Type::CHARS(size) => {
                let w = nat_text(size as u128);
                setter.append("=bytes(");
                setter.append(n);
                setter.append(")[:");
                setter.append(w.as_str());
                setter.append("].ljust(");
                setter.append(w.as_str());
                setter.append(", b'\\0')");
            },
            Type::F32(_) => {
                let (lo, hi) = bound_texts(&f.t);
                setter.append("=to_f32(clamp(float.fromhex('");
                setter.append(lo.as_str());
                setter.append("'), ");
                setter.append(n);
                setter.append(", float.fromhex('");
                setter.append(hi.as_str());
                setter.append("')))");
            },
            _ => {
                let (lo, hi) = bound_texts(&f.t);
                setter.append("=clamp(");
                setter.append(lo.as_str());
                setter.append(", ");
                setter.append(n);
                setter.append(", ");
                setter.append(hi.as_str());
                setter.append(")");
            },
        }
        assert(setter@ =~= py_setter(*f));
        s.append(setter.as_str());
        assert(s@ =~= py_get_set(*f));
        s
    }

    fn bit_type(f: &Field) -> (r: String)
        ensures
            r@ == py_bit_type(*f),
    {
        match f.t {
            Type::I8(_) => "intle:8".to_owned(),
            Type::I16(_) => "intle:16".to_owned(),
            Type::I32(_) => "intle:32".to_owned(),
            Type::U8(_) => "uintle:8".to_owned(),
            Type::U16(_) => "uintle:16".to_owned(),
            Type::U32(_) => "uintle:32".to_owned(),
            Type::F32(_) => "floatle:32".to_owned(),
            Type::CHARS(n) => {
                let mut s = "bytes:".to_owned();
                s.append(nat_text(n as u128).as_str());
                s
            },
        }
    }

    fn repr_item(f: &Field) -> (r: String)
        ensures
            r@ == py_repr_item(*f),
    {
        let mut s = "'".to_owned();
        s.append(f.name.as_str());
        s.append(" : {}'.format(self._");
        s.append(f.name.as_str());
        s.append(")");
        s
    }

    fn attr(f: &Field) -> (r: String)
        ensures
            r@ == py_attr(*f),
    {
        let mut s = "self._".to_owned();
        s.append(f.name.as_str());
        s
    }

    fn attrs(fields: &Vec<Field>) -> (r: String)
        ensures
            r@ == join(fields@.map_values(|f: Field| py_attr(f)), ", "@),
    {
        let mut parts: Vec<String> = Vec::new();
        let mut i: usize = 0;
        while i < fields.len()
            invariant
                i <= fields@.len(),
                parts@.len() == i,
                forall|j: int| 0 <= j < i ==> (#[trigger] parts@[j])@ == py_attr(fields@[j]),
            decreases fields.len() - i,
        {
            parts.push(Self::attr(&fields[i]));
            i = i + 1;
        }
        assert(views(parts@) =~= fields@.map_values(|f: Field| py_attr(f)));
        join_texts(&parts, ", ")
    }

    fn bit_format(fields: &Vec<Field>) -> (r: String)
        ensures
            r@ == join(fields@.map_values(|f: Field| py_bit_type(f)), ", "@),
    {
        let mut parts: Vec<String> = Vec::new();
        let mut i: usize = 0;
        while i < fields.len()
            invariant
                i <= fields@.len(),
                parts@.len() == i,
                forall|j: int| 0 <= j < i ==> (#[trigger] parts@[j])@ == py_bit_type(fields@[j]),
            decreases fields.len() - i,
        {
            parts.push(Self::bit_type(&fields[i]));
            i = i + 1;
        }
        assert(views(parts@) =~= fields@.map_values(|f: Field| py_bit_type(f)));
        join_texts(&parts, ", ")
    }

    fn repr(msg: &MsgSpec) -> (r: String)
        ensures
            r@ == py_repr(msg.fields@),
    {
        let mut parts: Vec<String> = Vec::new();
        let mut i: usize = 0;
        while i < msg.fields.len()
            invariant
                i <= msg.fields@.len(),
                parts@.len() == i,
                forall|j: int| 0 <= j < i ==> (#[trigger] parts@[j])@ == py_repr_item(msg.fields@[j]),
            decreases msg.fields.len() - i,
        {
            parts.push(Self::repr_item(&msg.fields[i]));
            i = i + 1;
        }
        assert(views(parts@) =~= msg.fields@.map_values(|f: Field| py_repr_item(f)));
        let mut s = "\tdef __repr__(self):\n\t\treturn '\\n'.join([".to_owned();
        s.append(join_texts(&parts, ", ").as_str());
        s.append("])");
        s
    }

    fn serialize(msg: &MsgSpec) -> (r: String)
        ensures
            r@ == py_serialize(msg.fields@),
    {
        let mut s = if msg.fields.len() == 0 {
            "\tdef serialize(self):\n\t\tpayload = b''\n".to_owned()
        } else {
            let mut p = "\tdef serialize(self):\n\t\tpayload = bitstring.pack('".to_owned();
            p.append(Self::bit_format(&msg.fields).as_str());
            p.append("', ");
            p.append(Self::attrs(&msg.fields).as_str());
            p.append(").bytes\n");
            p
        };
        s.append("\t\tbody = bytes([self.ID, len(payload)]) + payload\n\t\tck = checksum(body)\n\t\treturn bytes([0xFF, 0xFF]) + body + bytes([ck & 0xFF, (ck >> 8) & 0xFF])");
        s
    }

    fn deserialize(msg: &MsgSpec) -> (r: String)
        ensures
            r@ == py_deserialize(msg.fields@),
    {
        if msg.fields.len() == 0 {
            return "\tdef deserialize(self, frame):\n\t\tpass".to_owned();
        }
        let mut s = "\tdef deserialize(self, frame):\n\t\ts = bitstring.BitStream(frame[4:self.SIZE-2])\n\t\t".to_owned();
        s.append(Self::attrs(&msg.fields).as_str());
        s.append(", = s.unpack('");
        s.append(Self::bit_format(&msg.fields).as_str());
        s.append("')");
        s
    }

    fn declare_class(msg: &MsgSpec) -> (r: String)
        requires
            emittable(*msg),
        ensures
            r@ == py_class(*msg),
    {
        let fields = &msg.fields;
        let decls = if fields.len() == 0 {
            "\t\tpass".to_owned()
        } else {
            let mut parts: Vec<String> = Vec::new();
            let mut i: usize = 0;
            while i < fields.len()
                invariant
                    i <= fields@.len(),
                    parts@.len() == i,
                    forall|j: int| 0 <= j < i ==> (#[trigger] parts@[j])@ == py_decl_line(fields@[j]),
                decreases fields.len() - i,
            {
                parts.push(Self::init_variable(&fields[i]));
                i = i + 1;
            }
            assert(views(parts@) =~= fields@.map_values(|f: Field| py_decl_line(f)));
            join_texts(&parts, "\n")
        };
        let mut getters: Vec<String> = Vec::new();
        let mut i: usize = 0;
        while i < fields.len()
            invariant
                i <= fields@.len(),
                emittable(*msg),
                fields@ == msg.fields@,
                getters@.len() == i,
                forall|j: int| 0 <= j < i ==> (#[trigger] getters@[j])@ == py_get_set(fields@[j]),
            decreases fields.len() - i,
        {
            proof {
                assert(well_formed_type(msg.fields@[i as int].t));
            }
            getters.push(Self::make_get_set(&fields[i]));
            i = i + 1;
        }
        assert(views(getters@) =~= fields@.map_values(|f: Field| py_get_set(f)));
        let mut s = "class ".to_owned();
        s.append(msg.name.as_str());
        s.append("(DuckMsg):\n");
        s.append("\tID = ");
        s.append(nat_text(msg.id as u128).as_str());
        s.append("\n");
        s.append("\tSIZE = ");
        s.append(nat_text(msg.get_buffer_size() as u128).as_str());
        s.append("\n\tdef __init__(self):\n");
        s.append(decls.as_str());
        s.append("\n\n");
        s.append(Self::serialize(msg).as_str());
        s.append("\n\n");
        s.append(Self::deserialize(msg).as_str());
        s.append("\n\n");
        s.append(Self::repr(msg).as_str());
        s.append("\n\n");
        s.append(join_texts(&getters, "\n\n").as_str());
        assert(s@ =~= py_class(*msg));
        s
    }

    fn message_dict(messages: &Vec<MsgSpec>) -> (r: String)
        ensures
            r@ == py_dict(messages@),
    {
        let mut parts: Vec<String> = Vec::new();
        let mut i: usize = 0;
        while i < messages.len()
            invariant
                i <= messages@.len(),
                parts@.len() == i,
                forall|j: int| 0 <= j < i ==> (#[trigger] parts@[j])@ == py_dict_line(messages@[j]),
            decreases messages.len() - i,
        {
            let m = &messages[i];
            let mut line = "\t".to_owned();
            line.append(nat_text(m.id as u128).as_str());
            line.append(" : ");
            line.append(m.name.as_str());
            line.append(",");
            parts.push(line);
            i = i + 1;
        }
        assert(views(parts@) =~= messages@.map_values(|m: MsgSpec| py_dict_line(m)));
        let mut s = "MESSAGES = {\n".to_owned();
        s.append(join_texts(&parts, "\n").as_str());
        s.append("\n}");
        s
    }
}

impl Generator for PythonGenerator {
    open spec fn admits(messages: Seq<MsgSpec>) -> bool {
        all_emittable(messages)
    }

    open spec fn output(messages: Seq<MsgSpec>, uid: u32) -> Seq<(Seq<char>, Seq<char>)> {
        seq![("messages.py"@, py_module(messages, uid))]
    }

    /// Writes `messages.py`: the build identifier, one class per message and
    /// the dictionary from id to class.
    fn generate_messages(messages: &Vec<MsgSpec>, uid: u32) -> (r: Vec<(String, String)>) {
        let mut classes: Vec<String> = Vec::new();
        let mut i: usize = 0;
        while i < messages.len()
            invariant
                i <= messages@.len(),
                all_emittable(messages@),
                classes@.len() == i,
                forall|j: int| 0 <= j < i ==> (#[trigger] classes@[j])@ == py_class(messages@[j]),
            decreases messages.len() - i,
        {
            proof {
                assert(emittable(messages@[i as int]));
            }
            classes.push(Self::declare_class(&messages[i]));
            i = i + 1;
        }
        assert(views(classes@) =~= messages@.map_values(|m: MsgSpec| py_class(m)));
        let mut code = "from duckmsg import DuckMsg, clamp\nimport bitstring\nimport struct".to_owned();
        code.append("\n\n");
        code.append("UID = ");
        code.append(nat_text(uid as u128).as_str());
        code.append("\n\n");
        code.append("def checksum(data):\n\ta = 0\n\tb = 0\n\tfor x in data:\n\t\ta = (a + x) % 256\n\t\tb = (b + a) % 256\n\treturn (a << 8) | b");
        code.append("\n\n");
        code.append("def to_f32(x):\n\treturn struct.unpack('<f', struct.pack('<f', x))[0]");
        code.append("\n\n");
        code.append(join_texts(&classes, "\n\n").as_str());
        code.append("\n\n");
        code.append(Self::message_dict(messages).as_str());
        code.append("\n");
        let r = vec![("messages.py".to_owned(), code)];
        assert(files_view(r@) =~= seq![("messages.py"@, py_module(messages@, uid))]);
        r
    }
}

} // verus!

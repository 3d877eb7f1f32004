//! The C++ emitter: `messages.h` with a class per message, deriving from
//! `DuckMsg`, and `messages.cpp` with the shared wire routines, the dispatch
//! routine, constructors and serializers.
use crate::generator::{files_view, Generator};
use crate::message::{all_emittable, emittable, well_formed_type, Field, MsgSpec, Type};
use crate::protocol::{
    bound_literals, bound_texts, c_get_field, c_put_field, c_routine_decls, c_routines, get_field, put_field,
    routine_decls, routines,
};
use crate::text::{digits, join, join_texts, nat_text, views};
use vstd::prelude::*;

verus! {

/// The C++ emitter.
pub struct CPPGenerator;

/// The C++ type of a field.
pub open spec fn cpp_type(t: Type) -> Seq<char> {
    match t {
        Type::I8(_) => "int8_t"@,
        Type::I16(_) => "int16_t"@,
        Type::I32(_) => "int32_t"@,
        Type::U8(_) => "uint8_t"@,
        Type::U16(_) => "uint16_t"@,
        Type::U32(_) => "uint32_t"@,
        Type::F32(_) => "float"@,
        Type::CHARS(_) => "char*"@,
    }
}

/// The private member of a field.
pub open spec fn cpp_member(f: Field) -> Seq<char> {
    let n = f.name@;
    match f.t {
        Type::CHARS(size) => "  char _"@ + n + "["@ + digits(size as nat) + "];"@,
        _ => "  "@ + cpp_type(f.t) + " _"@ + n + ";"@,
    }
}

/// The setter of a field; it clamps scalars into their bounds.
pub open spec fn cpp_setter(f: Field) -> Seq<char> {
    let n = f.name@;
    let head = "  void set_"@ + n + "("@ + cpp_type(f.t) + " "@ + n + ")"@;
    match f.t {
        Type::CHARS(size) => head + " {\n    strncpy(_"@ + n + ", "@ + n + ", "@ + digits(size as nat) + ");\n  }"@,
        _ => head + "{ _"@ + n + " = clamp("@ + bound_literals(f.t).0 + ", "@ + n + ", "@ + bound_literals(f.t).1
            + "); }"@,
    }
}

/// The getter and setter of a field.
pub open spec fn cpp_get_set(f: Field) -> Seq<char> {
    "  "@ + cpp_type(f.t) + " get_"@ + f.name@ + "(){ return _"@ + f.name@ + "; }"@ + "\n"@ + cpp_setter(f)
}

/// The statement of the constructor that clears a field.
pub open spec fn cpp_init(f: Field) -> Seq<char> {
    match f.t {
        Type::CHARS(_) => "  _"@ + f.name@ + "[0] = '\\0';"@,
        _ => "  _"@ + f.name@ + " = 0;"@,
    }
}

/// The class declaration of a message.
pub open spec fn cpp_declare_class(m: MsgSpec) -> Seq<char> {
    let name = m.name@;
    "class "@ + name + ": public DuckMsg {\npublic:\n  static const size_t SIZE = "@ + digits(m.frame())
        + ";\n  static const uint8_t ID = "@ + digits(m.id as nat) + ";\n\n  "@ + name + "();\n  "@ + name
        + "(uint8_t *buffer);\n\n  void to_bytes(uint8_t *buffer);\n\n"@
        + join(m.fields@.map_values(|f: Field| cpp_get_set(f)), "\n\n"@) + "\n\nprivate:\n"@
        + join(m.fields@.map_values(|f: Field| cpp_member(f)), "\n"@) + "\n};"@
}

/// The serializer of a message: sync bytes, id, payload length, fields, checksum.
pub open spec fn cpp_to_bytes(m: MsgSpec) -> Seq<char> {
    "void "@ + m.name@
        + "::to_bytes(uint8_t *buffer) {\n  int offset = 0;\n  buffer[offset++] = 0xFF;\n  buffer[offset++] = 0xFF;\n  buffer[offset++] = ID;\n  buffer[offset++] = "@
        + digits(m.payload()) + ";\n"@ + join(m.fields@.map_values(|f: Field| c_put_field("_"@, f)), "\n"@)
        + "\n  uint16_t checksum = compute_cheksum(buffer+2, "@ + digits(m.payload() + 2)
        + ");\n  buffer[offset++] = checksum & 0xFF;\n  buffer[offset++] = (checksum>>8) & 0xFF;\n}"@
}

/// The constructor that clears every field.
pub open spec fn cpp_constructor(m: MsgSpec) -> Seq<char> {
    m.name@ + "::"@ + m.name@ + "() {\n"@ + join(m.fields@.map_values(|f: Field| cpp_init(f)), "\n"@) + "\n}"@
}

/// The constructor that reads the fields from a buffer.
pub open spec fn cpp_from_bytes(m: MsgSpec) -> Seq<char> {
    m.name@ + "::"@ + m.name@ + "(uint8_t *buffer) {\n  int offset = 4;\n"@
        + join(m.fields@.map_values(|f: Field| c_get_field("_"@, f)), "\n"@) + "\n}"@
}

/// The branch of `make_msg` for one message id.
pub open spec fn cpp_dispatch_case(m: MsgSpec) -> Seq<char> {
    "  if(id=="@ + digits(m.id as nat) + ") {\n    return new "@ + m.name@ + "(buffer);\n  }"@
}

/// `make_msg`: from a wire id and a frame to the message its deserializer
/// reads; null for an unknown id.
pub open spec fn cpp_make_msg(msgs: Seq<MsgSpec>) -> Seq<char> {
    "DuckMsg* make_msg(uint8_t id, uint8_t *buffer) {\n"@ + join(msgs.map_values(|m: MsgSpec| cpp_dispatch_case(m)), "\n"@)
        + "\n  return 0;\n}"@
}

/// The constructors and serializer of a message.
pub open spec fn cpp_serialisations(m: MsgSpec) -> Seq<char> {
    cpp_constructor(m) + "\n\n"@ + cpp_from_bytes(m) + "\n\n"@ + cpp_to_bytes(m)
}

/// The text of `messages.h`.
pub open spec fn cpp_header(msgs: Seq<MsgSpec>, uid: u32) -> Seq<char> {
    "#ifndef MESSAGES_H\n#define MESSAGES_H\n\n#include <stdint.h>\n#include <string.h>\n#include \"Duckmsg.h\""@
        + "\n\n#define UID "@ + digits(uid as nat) + "\n\n"@ + c_routine_decls()
        + "\n\nDuckMsg* make_msg(uint8_t id, uint8_t *buffer);\n\n"@
        + join(msgs.map_values(|m: MsgSpec| cpp_declare_class(m)), "\n\n\n"@)
        + "\n\n"@ + "#endif    // MESSAGES_H"@
}

/// The text of `messages.cpp`.
pub open spec fn cpp_source(msgs: Seq<MsgSpec>) -> Seq<char> {
    "#include \"messages.h\""@ + "\n\n"@ + c_routines() + "\n\n"@ + cpp_make_msg(msgs) + "\n\n"@
        + join(msgs.map_values(|m: MsgSpec| cpp_serialisations(m)), "\n\n\n"@) + "\n"@
}

impl CPPGenerator {
    fn get_type(t: &Type) -> (r: &'static str)
        ensures
            r@ == cpp_type(*t),
    {
        match t {
            Type::I8(_) => "int8_t",
            Type::I16(_) => "int16_t",
            Type::I32(_) => "int32_t",
            Type::U8(_) => "uint8_t",
            Type::U16(_) => "uint16_t",
            Type::U32(_) => "uint32_t",
            Type::F32(_) => "float",
            Type::CHARS(_) => "char*",
        }
    }

    fn declare_variable(f: &Field) -> (r: String)
        ensures
            r@ == cpp_member(*f),
    {
        let n = f.name.as_str();
        match f.t {
            Type::CHARS(size) => {
                let mut s = "  char _".to_owned();
                s.append(n);
                s.append("[");
                s.append(nat_text(size as u128).as_str());
                s.append("];");
                s
            },
            _ => {
                let mut s = "  ".to_owned();
                s.append(Self::get_type(&f.t));
                s.append(" _");
                s.append(n);
                s.append(";");
                s
            },
        }
    }

    fn make_get_set(f: &Field) -> (r: String)
        requires
            well_formed_type(f.t),
        ensures
            r@ == cpp_get_set(*f),
    {
        let n = f.name.as_str();
        let t = Self::get_type(&f.t);
        let mut s = "  ".to_owned();
        s.append(t);
        s.append(" get_");
        s.append(n);
        s.append("(){ return _");
        s.append(n);
        s.append("; }");
        s.append("\n");
        let mut setter = "  void set_".to_owned();
        setter.append(n);
        setter.append("(");
        setter.append(t);
        setter.append(" ");
        setter.append(n);
        setter.append(")");
        match f.t {
            Type::CHARS(size) => {
                setter.append(" {\n    strncpy(_");
                setter.append(n);
                setter.append(", ");
                setter.append(n);
                setter.append(", ");
                setter.append(nat_text(size as u128).as_str());
                setter.append(");\n  }");
            },
            _ => {
                let (lo, hi) = bound_texts(&f.t);
                setter.append("{ _");
                setter.append(n);
                setter.append(" = clamp(");
                setter.append(lo.as_str());
                setter.append(", ");
                setter.append(n);
                setter.append(", ");
                setter.append(hi.as_str());
                setter.append("); }");
            },
        }
        assert(setter@ =~= cpp_setter(*f));
        s.append(setter.as_str());
        assert(s@ =~= cpp_get_set(*f));
        s
    }

    fn init_variable(f: &Field) -> (r: String)
        ensures
            r@ == cpp_init(*f),
    {
        let mut s = "  _".to_owned();
        s.append(f.name.as_str());
        match f.t {
            Type::CHARS(_) => s.append("[0] = '\\0';"),
            _ => s.append(" = 0;"),
        }
        s
    }

    fn declare_class(msg: &MsgSpec) -> (r: String)
        requires
            emittable(*msg),
        ensures
            r@ == cpp_declare_class(*msg),
    {
        let fields = &msg.fields;
        let mut vars: Vec<String> = Vec::new();
        let mut getsets: Vec<String> = Vec::new();
        let mut i: usize = 0;
        while i < fields.len()
            invariant
                i <= fields@.len(),
                emittable(*msg),
                fields@ == msg.fields@,
                vars@.len() == i,
                getsets@.len() == i,
                forall|j: int| 0 <= j < i ==> (#[trigger] vars@[j])@ == cpp_member(fields@[j]),
                forall|j: int| 0 <= j < i ==> (#[trigger] getsets@[j])@ == cpp_get_set(fields@[j]),
            decreases fields.len() - i,
        {
            proof {
                assert(well_formed_type(msg.fields@[i as int].t));
            }
            vars.push(Self::declare_variable(&fields[i]));
            getsets.push(Self::make_get_set(&fields[i]));
            i = i + 1;
        }
        assert(views(vars@) =~= fields@.map_values(|f: Field| cpp_member(f)));
        assert(views(getsets@) =~= fields@.map_values(|f: Field| cpp_get_set(f)));
        let name = msg.name.as_str();
        let mut s = "class ".to_owned();
        s.append(name);
        s.append(": public DuckMsg {\npublic:\n  static const size_t SIZE = ");
        s.append(nat_text(msg.get_buffer_size() as u128).as_str());
        s.append(";\n  static const uint8_t ID = ");
        s.append(nat_text(msg.id as u128).as_str());
        s.append(";\n\n  ");
        s.append(name);
        s.append("();\n  ");
        s.append(name);
        s.append("(uint8_t *buffer);\n\n  void to_bytes(uint8_t *buffer);\n\n");
        s.append(join_texts(&getsets, "\n\n").as_str());
        s.append("\n\nprivate:\n");
        s.append(join_texts(&vars, "\n").as_str());
        s.append("\n};");
        assert(s@ =~= cpp_declare_class(*msg));
        s
    }

    fn to_bytes(msg: &MsgSpec) -> (r: String)
        requires
            emittable(*msg),
        ensures
            r@ == cpp_to_bytes(*msg),
    {
        let fields = &msg.fields;
        let mut parts: Vec<String> = Vec::new();
        let mut i: usize = 0;
        while i < fields.len()
            invariant
                i <= fields@.len(),
                parts@.len() == i,
                forall|j: int| 0 <= j < i ==> (#[trigger] parts@[j])@ == c_put_field("_"@, fields@[j]),
            decreases fields.len() - i,
        {
            parts.push(put_field("_", &fields[i]));
            i = i + 1;
        }
        assert(views(parts@) =~= fields@.map_values(|f: Field| c_put_field("_"@, f)));
        let payload = msg.get_payload_size();
        let mut s = "void ".to_owned();
        s.append(msg.name.as_str());
        s.append("::to_bytes(uint8_t *buffer) {\n  int offset = 0;\n  buffer[offset++] = 0xFF;\n  buffer[offset++] = 0xFF;\n  buffer[offset++] = ID;\n  buffer[offset++] = ");
        s.append(nat_text(payload as u128).as_str());
        s.append(";\n");
        s.append(join_texts(&parts, "\n").as_str());
        s.append("\n  uint16_t checksum = compute_cheksum(buffer+2, ");
        s.append(nat_text((payload + 2) as u128).as_str());
        s.append(");\n  buffer[offset++] = checksum & 0xFF;\n  buffer[offset++] = (checksum>>8) & 0xFF;\n}");
        assert(s@ =~= cpp_to_bytes(*msg));
        s
    }

    fn constructor(msg: &MsgSpec) -> (r: String)
        ensures
            r@ == cpp_constructor(*msg),
    {
        let fields = &msg.fields;
        let mut parts: Vec<String> = Vec::new();
        let mut i: usize = 0;
        while i < fields.len()
            invariant
                i <= fields@.len(),
                parts@.len() == i,
                forall|j: int| 0 <= j < i ==> (#[trigger] parts@[j])@ == cpp_init(fields@[j]),
            decreases fields.len() - i,
        {
            parts.push(Self::init_variable(&fields[i]));
            i = i + 1;
        }
        assert(views(parts@) =~= fields@.map_values(|f: Field| cpp_init(f)));
        let mut s = msg.name.clone();
        s.append("::");
        s.append(msg.name.as_str());
        s.append("() {\n");
        s.append(join_texts(&parts, "\n").as_str());
        s.append("\n}");
        s
    }

    fn constructor_from_bytes(msg: &MsgSpec) -> (r: String)
        ensures
            r@ == cpp_from_bytes(*msg),
    {
        let fields = &msg.fields;
        let mut parts: Vec<String> = Vec::new();
        let mut i: usize = 0;
        while i < fields.len()
            invariant
                i <= fields@.len(),
                parts@.len() == i,
                forall|j: int| 0 <= j < i ==> (#[trigger] parts@[j])@ == c_get_field("_"@, fields@[j]),
            decreases fields.len() - i,
        {
            parts.push(get_field("_", &fields[i]));
            i = i + 1;
        }
        assert(views(parts@) =~= fields@.map_values(|f: Field| c_get_field("_"@, f)));
        let mut s = msg.name.clone();
        s.append("::");
        s.append(msg.name.as_str());
        s.append("(uint8_t *buffer) {\n  int offset = 4;\n");
        s.append(join_texts(&parts, "\n").as_str());
        s.append("\n}");
        s
    }

    fn make_msg(messages: &Vec<MsgSpec>) -> (r: String)
        ensures
            r@ == cpp_make_msg(messages@),
    {
        let mut parts: Vec<String> = Vec::new();
        let mut i: usize = 0;
        while i < messages.len()
            invariant
                i <= messages@.len(),
                parts@.len() == i,
                forall|j: int| 0 <= j < i ==> (#[trigger] parts@[j])@ == cpp_dispatch_case(messages@[j]),
            decreases messages.len() - i,
        {
            let m = &messages[i];
            let mut line = "  if(id==".to_owned();
            line.append(nat_text(m.id as u128).as_str());
            line.append(") {\n    return new ");
            line.append(m.name.as_str());
            line.append("(buffer);\n  }");
            parts.push(line);
            i = i + 1;
        }
        assert(views(parts@) =~= messages@.map_values(|m: MsgSpec| cpp_dispatch_case(m)));
        let mut s = "DuckMsg* make_msg(uint8_t id, uint8_t *buffer) {\n".to_owned();
        s.append(join_texts(&parts, "\n").as_str());
        s.append("\n  return 0;\n}");
        s
    }
}

impl Generator for CPPGenerator {
    open spec fn admits(messages: Seq<MsgSpec>) -> bool {
        all_emittable(messages)
    }

    open spec fn output(messages: Seq<MsgSpec>, uid: u32) -> Seq<(Seq<char>, Seq<char>)> {
        seq![("messages.h"@, cpp_header(messages, uid)), ("messages.cpp"@, cpp_source(messages))]
    }

    /// Writes `messages.h`, with the build identifier as `UID`, and
    /// `messages.cpp`.
    fn generate_messages(messages: &Vec<MsgSpec>, uid: u32) -> (r: Vec<(String, String)>) {
        let mut decls: Vec<String> = Vec::new();
        let mut sers: Vec<String> = Vec::new();
        let mut i: usize = 0;
        while i < messages.len()
            invariant
                i <= messages@.len(),
                all_emittable(messages@),
                decls@.len() == i,
                sers@.len() == i,
                forall|j: int| 0 <= j < i ==> (#[trigger] decls@[j])@ == cpp_declare_class(messages@[j]),
                forall|j: int| 0 <= j < i ==> (#[trigger] sers@[j])@ == cpp_serialisations(messages@[j]),
            decreases messages.len() - i,
        {
            let m = &messages[i];
            proof {
                assert(emittable(messages@[i as int]));
            }
            decls.push(Self::declare_class(m));
            let mut ser = Self::constructor(m);
            ser.append("\n\n");
            ser.append(Self::constructor_from_bytes(m).as_str());
            ser.append("\n\n");
            ser.append(Self::to_bytes(m).as_str());
            sers.push(ser);
            i = i + 1;
        }
        assert(views(decls@) =~= messages@.map_values(|m: MsgSpec| cpp_declare_class(m)));
        assert(views(sers@) =~= messages@.map_values(|m: MsgSpec| cpp_serialisations(m)));
        let mut header = "#ifndef MESSAGES_H\n#define MESSAGES_H\n\n#include <stdint.h>\n#include <string.h>\n#include \"Duckmsg.h\"".to_owned();
        header.append("\n\n#define UID ");
        header.append(nat_text(uid as u128).as_str());
        header.append("\n\n");
        header.append(routine_decls().as_str());
        header.append("\n\nDuckMsg* make_msg(uint8_t id, uint8_t *buffer);\n\n");
        header.append(join_texts(&decls, "\n\n\n").as_str());
        header.append("\n\n");
        header.append("#endif    // MESSAGES_H");
        let mut source = "#include \"messages.h\"".to_owned();
        source.append("\n\n");
        source.append(routines().as_str());
        source.append("\n\n");
        source.append(Self::make_msg(messages).as_str());
        source.append("\n\n");
        source.append(join_texts(&sers, "\n\n\n").as_str());
        source.append("\n");
        assert(header@ =~= cpp_header(messages@, uid));
        assert(source@ =~= cpp_source(messages@));
        let r = vec![("messages.h".to_owned(), header), ("messages.cpp".to_owned(), source)];
        assert(files_view(r@) =~= seq![("messages.h"@, cpp_header(messages@, uid)), ("messages.cpp"@, cpp_source(messages@))]);
        r
    }
}

} // verus!

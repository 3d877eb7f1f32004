//! The C emitter: `messages.h` with a struct and clamping accessors per
//! message and a tagged union, and `messages.c` with the shared wire
//! routines, the dispatch routine and one serializer and deserializer per
//! message.
use crate::generator::{files_view, Generator};
use crate::message::{all_emittable, emittable, well_formed_type, Field, MsgSpec, Type};
use crate::naming::{snake_case, snake_case_of};
use crate::protocol::{
    bound_literals, bound_texts, c_get_field, c_put_field, c_routine_decls, c_routines, c_value_type, get_field,
    put_field, routine_decls, routines, value_type,
};
use crate::text::{digits, join, join_texts, nat_text, views};
use vstd::prelude::*;

verus! {

/// The C emitter.
pub struct CGenerator;

/// A line of a message struct.
pub open spec fn c_member(f: Field) -> Seq<char> {
    match f.t {
        Type::CHARS(size) => "  char "@ + f.name@ + "["@ + digits(size as nat) + "];"@,
        _ => "  "@ + c_value_type(f.t) + " "@ + f.name@ + ";"@,
    }
}

/// The getter and setter of a field, as functions over the struct: the
/// setter stores a scalar clamped into `[min, max]` and copies at most the
/// array's length of a text.
pub open spec fn c_get_set(name: Seq<char>, sname: Seq<char>, f: Field) -> Seq<char> {
    let n = f.name@;
    let t = c_value_type(f.t);
    let head = "static inline void "@ + sname + "_set_"@ + n + "(struct "@ + name + "* msg, "@ + t + " value) { "@;
    let setter = match f.t {
        Type::CHARS(size) => head + "strncpy(msg->"@ + n + ", value, "@ + digits(size as nat) + "); }"@,
        _ => head + "msg->"@ + n + " = value < "@ + bound_literals(f.t).0 + " ? "@ + bound_literals(f.t).0
            + " : (value > "@ + bound_literals(f.t).1 + " ? "@ + bound_literals(f.t).1 + " : value); }"@,
    };
    "static inline "@ + t + " "@ + sname + "_get_"@ + n + "(struct "@ + name + "* msg) { return msg->"@ + n + "; }\n"@
        + setter
}

/// The constants, struct, accessors and prototypes of a message.
pub open spec fn c_declare_class(m: MsgSpec) -> Seq<char> {
    let name = m.name@;
    let sname = snake_case_of(name);
    "#define SIZE_"@ + name + " "@ + digits(m.frame()) + "\n#define  ID_"@ + name + " "@ + digits(m.id as nat)
        + "\n\nstruct "@ + name + "{\n"@ + join(m.fields@.map_values(|f: Field| c_member(f)), "\n"@) + "\n};\n\n"@
        + join(m.fields@.map_values(|f: Field| c_get_set(name, sname, f)), "\n\n"@) + "\n\nvoid "@ + sname
        + "_from_bytes(union Message_t* msg_u, uint8_t *buffer);\nvoid "@ + sname + "_to_bytes(struct "@ + name
        + "* msg, uint8_t *buffer);\n\n"@
}

/// The serializer of a message: the whole frame, with sync bytes, id,
/// payload length, the fields in wire order and the checksum.
pub open spec fn c_to_bytes(m: MsgSpec) -> Seq<char> {
    let name = m.name@;
    "void "@ + snake_case_of(name) + "_to_bytes(struct "@ + name
        + "* msg, uint8_t *buffer) {\n  int offset = 0;\n  buffer[offset++] = 0xFF;\n  buffer[offset++] = 0xFF;\n  buffer[offset++] = ID_"@
        + name + ";\n  buffer[offset++] = SIZE_"@ + name + " - 6;\n"@
        + join(m.fields@.map_values(|f: Field| c_put_field("msg->"@, f)), "\n"@)
        + "\n  uint16_t checksum = compute_cheksum(buffer+2, SIZE_"@ + name
        + " - 4);\n  buffer[offset++] = checksum & 0xFF;\n  buffer[offset++] = (checksum>>8) & 0xFF;\n}"@
}

/// The deserializer of a message: reads the fields of a whole frame, after
/// its four header bytes.
pub open spec fn c_from_bytes(m: MsgSpec) -> Seq<char> {
    let name = m.name@;
    "void "@ + snake_case_of(name) + "_from_bytes(union Message_t* msg_u, uint8_t *buffer) {\n  struct "@ + name
        + "* msg = (struct "@ + name + "*)msg_u;\n  int offset = 4;\n"@
        + join(m.fields@.map_values(|f: Field| c_get_field("msg->"@, f)), "\n"@) + "\n}"@
}

/// The branch of `msg_from_bytes` for one message id.
pub open spec fn c_dispatch_case(m: MsgSpec) -> Seq<char> {
    "  if(id=="@ + digits(m.id as nat) + ") {\n    "@ + snake_case_of(m.name@) + "_from_bytes(&tmsg->msg, buffer);\n  }"@
}

/// `msg_from_bytes`: from a wire id to the matching deserializer.
pub open spec fn c_make_msg(msgs: Seq<MsgSpec>) -> Seq<char> {
    "void msg_from_bytes(struct TagMessage* tmsg, uint8_t* buffer, uint8_t id) {\n"@
        + join(msgs.map_values(|m: MsgSpec| c_dispatch_case(m)), "\n"@) + "\n  tmsg->tag = id;\n}"@
}

/// The member of `Message_t` for a message.
pub open spec fn c_union_member(m: MsgSpec) -> Seq<char> {
    "  struct "@ + m.name@ + " "@ + snake_case_of(m.name@) + ";"@
}

/// The serializer and deserializer of a message.
pub open spec fn c_serialisations(m: MsgSpec) -> Seq<char> {
    c_to_bytes(m) + "\n\n"@ + c_from_bytes(m)
}

/// The largest frame size among the messages; 0 for none.
pub open spec fn max_frame(msgs: Seq<MsgSpec>) -> nat
    decreases msgs.len(),
{
    if msgs.len() == 0 {
        0
    } else {
        let rest = max_frame(msgs.drop_last());
        if msgs.last().frame() > rest {
            msgs.last().frame()
        } else {
            rest
        }
    }
}

/// The text of `messages.h`.
pub open spec fn c_header(msgs: Seq<MsgSpec>, uid: u32) -> Seq<char> {
    "#ifndef MESSAGES_H\n#define MESSAGES_H\n\n#include <stdint.h>\n#include <string.h>"@ + "\n\n#define UID "@
        + digits(uid as nat) + "\n\nunion Message_t;\n\nstruct TagMessage;\n\n"@ + c_routine_decls()
        + "\n\n#define MAX_MSG_BUFFER_SIZE "@ + digits(max_frame(msgs)) + "\n\n"@
        + join(msgs.map_values(|m: MsgSpec| c_declare_class(m)), "\n\n\n"@) + "\n\n"@ + "union Message_t {\n"@
        + join(msgs.map_values(|m: MsgSpec| c_union_member(m)), "\n"@) + "\n};"@
        + "\n\nstruct TagMessage {\n  uint8_t tag;\n  union Message_t msg;\n};\n\nvoid msg_from_bytes(struct TagMessage* tmsg, uint8_t* buffer, uint8_t id);\n\n"@
        + "#endif    // MESSAGES_H"@
}

/// The text of `messages.c`.
pub open spec fn c_source(msgs: Seq<MsgSpec>) -> Seq<char> {
    "#include \"messages.h\""@ + "\n\n"@ + c_routines() + "\n\n"@ + c_make_msg(msgs) + "\n\n"@
        + join(msgs.map_values(|m: MsgSpec| c_serialisations(m)), "\n\n\n"@) + "\n"@
}

impl CGenerator {
    fn declare_variable(f: &Field) -> (r: String)
        ensures
            r@ == c_member(*f),
    {
        let mut s: String;
        match f.t {
            Type::CHARS(size) => {
                s = "  char ".to_owned();
                s.append(f.name.as_str());
                s.append("[");
                s.append(nat_text(size as u128).as_str());
                s.append("];");
            },
            _ => {
                s = "  ".to_owned();
                s.append(value_type(&f.t));
                s.append(" ");
                s.append(f.name.as_str());
                s.append(";");
            },
        }
        assert(s@ =~= c_member(*f));
        s
    }

    /// The getter and the clamping setter of a field of message `name`.
    fn make_get_set(name: &str, sname: &str, f: &Field) -> (r: String)
        requires
            well_formed_type(f.t),
        ensures
            r@ == c_get_set(name@, sname@, *f),
    {
        let n = f.name.as_str();
        let t = value_type(&f.t);
        let mut s = "static inline ".to_owned();
        s.append(t);
        s.append(" ");
        s.append(sname);
        s.append("_get_");
        s.append(n);
        s.append("(struct ");
        s.append(name);
        s.append("* msg) { return msg->");
        s.append(n);
        s.append("; }\n");
        let mut setter = "static inline void ".to_owned();
        setter.append(sname);
        setter.append("_set_");
        setter.append(n);
        setter.append("(struct ");
        setter.append(name);
        setter.append("* msg, ");
        setter.append(t);
        setter.append(" value) { ");
        match f.t {
            Type::CHARS(size) => {
                setter.append("strncpy(msg->");
                setter.append(n);
                setter.append(", value, ");
                setter.append(nat_text(size as u128).as_str());
                setter.append("); }");
            },
            _ => {
                let (lo, hi) = bound_texts(&f.t);
                setter.append("msg->");
                setter.append(n);
                setter.append(" = value < ");
                setter.append(lo.as_str());
                setter.append(" ? ");
                setter.append(lo.as_str());
                setter.append(" : (value > ");
                setter.append(hi.as_str());
                setter.append(" ? ");
                setter.append(hi.as_str());
                setter.append(" : value); }");
            },
        }
        assert(setter@ =~= match f.t {
            Type::CHARS(size) => "static inline void "@ + sname@ + "_set_"@ + n@ + "(struct "@ + name@ + "* msg, "@ + t@
                + " value) { "@ + "strncpy(msg->"@ + n@ + ", value, "@ + digits(size as nat) + "); }"@,
            _ => "static inline void "@ + sname@ + "_set_"@ + n@ + "(struct "@ + name@ + "* msg, "@ + t@ + " value) { "@
                + "msg->"@ + n@ + " = value < "@ + bound_literals(f.t).0 + " ? "@ + bound_literals(f.t).0
                + " : (value > "@ + bound_literals(f.t).1 + " ? "@ + bound_literals(f.t).1 + " : value); }"@,
        });
        s.append(setter.as_str());
        assert(s@ =~= c_get_set(name@, sname@, *f));
        s
    }

    fn declare_class(msg: &MsgSpec) -> (r: String)
        requires
            emittable(*msg),
        ensures
            r@ == c_declare_class(*msg),
    {
        let fields = &msg.fields;
        let name = msg.name.as_str();
        let sname = snake_case(name);
        let mut vars: Vec<String> = Vec::new();
        let mut getsets: Vec<String> = Vec::new();
        let mut i: usize = 0;
        while i < fields.len()
            invariant
                i <= fields@.len(),
                emittable(*msg),
                fields@ == msg.fields@,
                name@ == msg.name@,
                sname@ == snake_case_of(msg.name@),
                vars@.len() == i,
                getsets@.len() == i,
                forall|j: int| 0 <= j < i ==> (#[trigger] vars@[j])@ == c_member(fields@[j]),
                forall|j: int| 0 <= j < i ==> (#[trigger] getsets@[j])@ == c_get_set(msg.name@, snake_case_of(msg.name@), fields@[j]),
            decreases fields.len() - i,
        {
            proof {
                assert(well_formed_type(msg.fields@[i as int].t));
            }
            vars.push(Self::declare_variable(&fields[i]));
            getsets.push(Self::make_get_set(name, sname.as_str(), &fields[i]));
            i = i + 1;
        }
        assert(views(vars@) =~= fields@.map_values(|f: Field| c_member(f)));
        assert(views(getsets@) =~= fields@.map_values(|f: Field| c_get_set(msg.name@, snake_case_of(msg.name@), f)));
        let mut s = "#define SIZE_".to_owned();
        s.append(name);
        s.append(" ");
        s.append(nat_text(msg.get_buffer_size() as u128).as_str());
        s.append("\n#define  ID_");
        s.append(name);
        s.append(" ");
        s.append(nat_text(msg.id as u128).as_str());
        s.append("\n\nstruct ");
        s.append(name);
        s.append("{\n");
        s.append(join_texts(&vars, "\n").as_str());
        s.append("\n};\n\n");
        s.append(join_texts(&getsets, "\n\n").as_str());
        s.append("\n\nvoid ");
        s.append(sname.as_str());
        s.append("_from_bytes(union Message_t* msg_u, uint8_t *buffer);\nvoid ");
        s.append(sname.as_str());
        s.append("_to_bytes(struct ");
        s.append(name);
        s.append("* msg, uint8_t *buffer);\n\n");
        assert(s@ =~= c_declare_class(*msg));
        s
    }

    fn to_bytes(msg: &MsgSpec) -> (r: String)
        ensures
            r@ == c_to_bytes(*msg),
    {
        let fields = &msg.fields;
        let mut parts: Vec<String> = Vec::new();
        let mut i: usize = 0;
        while i < fields.len()
            invariant
                i <= fields@.len(),
                parts@.len() == i,
                forall|j: int| 0 <= j < i ==> (#[trigger] parts@[j])@ == c_put_field("msg->"@, fields@[j]),
            decreases fields.len() - i,
        {
            parts.push(put_field("msg->", &fields[i]));
            i = i + 1;
        }
        assert(views(parts@) =~= fields@.map_values(|f: Field| c_put_field("msg->"@, f)));
        let name = msg.name.as_str();
        let mut s = "void ".to_owned();
        s.append(snake_case(name).as_str());
        s.append("_to_bytes(struct ");
        s.append(name);
        s.append("* msg, uint8_t *buffer) {\n  int offset = 0;\n  buffer[offset++] = 0xFF;\n  buffer[offset++] = 0xFF;\n  buffer[offset++] = ID_");
        s.append(name);
        s.append(";\n  buffer[offset++] = SIZE_");
        s.append(name);
        s.append(" - 6;\n");
        s.append(join_texts(&parts, "\n").as_str());
        s.append("\n  uint16_t checksum = compute_cheksum(buffer+2, SIZE_");
        s.append(name);
        s.append(" - 4);\n  buffer[offset++] = checksum & 0xFF;\n  buffer[offset++] = (checksum>>8) & 0xFF;\n}");
        assert(s@ =~= c_to_bytes(*msg));
        s
    }

    fn constructor_from_bytes(msg: &MsgSpec) -> (r: String)
        ensures
            r@ == c_from_bytes(*msg),
    {
        let fields = &msg.fields;
        let mut parts: Vec<String> = Vec::new();
        let mut i: usize = 0;
        while i < fields.len()
            invariant
                i <= fields@.len(),
                parts@.len() == i,
                forall|j: int| 0 <= j < i ==> (#[trigger] parts@[j])@ == c_get_field("msg->"@, fields@[j]),
            decreases fields.len() - i,
        {
            parts.push(get_field("msg->", &fields[i]));
            i = i + 1;
        }
        assert(views(parts@) =~= fields@.map_values(|f: Field| c_get_field("msg->"@, f)));
        let name = msg.name.as_str();
        let mut s = "void ".to_owned();
        s.append(snake_case(name).as_str());
        s.append("_from_bytes(union Message_t* msg_u, uint8_t *buffer) {\n  struct ");
        s.append(name);
        s.append("* msg = (struct ");
        s.append(name);
        s.append("*)msg_u;\n  int offset = 4;\n");
        s.append(join_texts(&parts, "\n").as_str());
        s.append("\n}");
        assert(s@ =~= c_from_bytes(*msg));
        s
    }

    fn make_msg(messages: &Vec<MsgSpec>) -> (r: String)
        ensures
            r@ == c_make_msg(messages@),
    {
        let mut parts: Vec<String> = Vec::new();
        let mut i: usize = 0;
        while i < messages.len()
            invariant
                i <= messages@.len(),
                parts@.len() == i,
                forall|j: int| 0 <= j < i ==> (#[trigger] parts@[j])@ == c_dispatch_case(messages@[j]),
            decreases messages.len() - i,
        {
            let m = &messages[i];
            let mut line = "  if(id==".to_owned();
            line.append(nat_text(m.id as u128).as_str());
            line.append(") {\n    ");
            line.append(snake_case(m.name.as_str()).as_str());
            line.append("_from_bytes(&tmsg->msg, buffer);\n  }");
            parts.push(line);
            i = i + 1;
        }
        assert(views(parts@) =~= messages@.map_values(|m: MsgSpec| c_dispatch_case(m)));
        let mut s = "void msg_from_bytes(struct TagMessage* tmsg, uint8_t* buffer, uint8_t id) {\n".to_owned();
        s.append(join_texts(&parts, "\n").as_str());
        s.append("\n  tmsg->tag = id;\n}");
        s
    }

    /// The largest frame size among the messages; 0 for none.
    fn max_size(messages: &Vec<MsgSpec>) -> (r: usize)
        requires
            all_emittable(messages@),
        ensures
            r == max_frame(messages@),
    {
        let mut best: usize = 0;
        let mut i: usize = 0;
        while i < messages.len()
            invariant
                i <= messages@.len(),
                all_emittable(messages@),
                best == max_frame(messages@.take(i as int)),
            decreases messages.len() - i,
        {
            proof {
                assert(messages@.take(i + 1).drop_last() =~= messages@.take(i as int));
                assert(emittable(messages@[i as int]));
            }
            let size = messages[i].get_buffer_size();
            if size > best {
                best = size;
            }
            i = i + 1;
        }
        proof {
            assert(messages@.take(i as int) =~= messages@);
        }
        best
    }
}

impl Generator for CGenerator {
    open spec fn admits(messages: Seq<MsgSpec>) -> bool {
        all_emittable(messages)
    }

    open spec fn output(messages: Seq<MsgSpec>, uid: u32) -> Seq<(Seq<char>, Seq<char>)> {
        seq![("messages.h"@, c_header(messages, uid)), ("messages.c"@, c_source(messages))]
    }

    /// Writes `messages.h` and `messages.c`.
    #[verifier::rlimit(60)]
    fn generate_messages(messages: &Vec<MsgSpec>, uid: u32) -> (r: Vec<(String, String)>) {
        let mut decls: Vec<String> = Vec::new();
        let mut members: Vec<String> = Vec::new();
        let mut sers: Vec<String> = Vec::new();
        let mut i: usize = 0;
        while i < messages.len()
            invariant
                i <= messages@.len(),
                all_emittable(messages@),
                decls@.len() == i,
                members@.len() == i,
                sers@.len() == i,
                forall|j: int| 0 <= j < i ==> (#[trigger] decls@[j])@ == c_declare_class(messages@[j]),
                forall|j: int| 0 <= j < i ==> (#[trigger] members@[j])@ == c_union_member(messages@[j]),
                forall|j: int| 0 <= j < i ==> (#[trigger] sers@[j])@ == c_serialisations(messages@[j]),
            decreases messages.len() - i,
        {
            let m = &messages[i];
            proof {
                assert(emittable(messages@[i as int]));
            }
            decls.push(Self::declare_class(m));
            let mut member = "  struct ".to_owned();
            member.append(m.name.as_str());
            member.append(" ");
            member.append(snake_case(m.name.as_str()).as_str());
            member.append(";");
            members.push(member);
            let mut ser = Self::to_bytes(m);
            ser.append("\n\n");
            ser.append(Self::constructor_from_bytes(m).as_str());
            sers.push(ser);
            i = i + 1;
        }
        assert(views(decls@) =~= messages@.map_values(|m: MsgSpec| c_declare_class(m)));
        assert(views(members@) =~= messages@.map_values(|m: MsgSpec| c_union_member(m)));
        assert(views(sers@) =~= messages@.map_values(|m: MsgSpec| c_serialisations(m)));
        let mut header = "#ifndef MESSAGES_H\n#define MESSAGES_H\n\n#include <stdint.h>\n#include <string.h>".to_owned();
        header.append("\n\n#define UID ");
        header.append(nat_text(uid as u128).as_str());
        header.append("\n\nunion Message_t;\n\nstruct TagMessage;\n\n");
        header.append(routine_decls().as_str());
        header.append("\n\n#define MAX_MSG_BUFFER_SIZE ");
        header.append(nat_text(Self::max_size(messages) as u128).as_str());
        header.append("\n\n");
        header.append(join_texts(&decls, "\n\n\n").as_str());
        header.append("\n\n");
        header.append("union Message_t {\n");
        header.append(join_texts(&members, "\n").as_str());
        header.append("\n};");
        header.append("\n\nstruct TagMessage {\n  uint8_t tag;\n  union Message_t msg;\n};\n\nvoid msg_from_bytes(struct TagMessage* tmsg, uint8_t* buffer, uint8_t id);\n\n");
        header.append("#endif    // MESSAGES_H");
        let mut source = "#include \"messages.h\"".to_owned();
        source.append("\n\n");
        source.append(routines().as_str());
        source.append("\n\n");
        source.append(Self::make_msg(messages).as_str());
        source.append("\n\n");
        source.append(join_texts(&sers, "\n\n\n").as_str());
        source.append("\n");
        assert(header@ =~= c_header(messages@, uid));
        assert(source@ =~= c_source(messages@));
        let r = vec![("messages.h".to_owned(), header), ("messages.c".to_owned(), source)];
        assert(files_view(r@) =~= seq![("messages.h"@, c_header(messages@, uid)), ("messages.c"@, c_source(messages@))]);
        r
    }
}

} // verus!

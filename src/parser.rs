//! The schema validator: turns an untyped tree into the list of messages,
//! collecting every rejected field instead of stopping at the first.
use crate::errors::{error_text, ParserError};
use crate::message::{lemma_decl_well_formed, type_of_decl, well_formed_type, Field, MsgSpec, Type};
use crate::naming::{class_case, class_case_of};
use crate::text::views;
use crate::tree::{measure_nesting, nesting_depth, read_document, toml_tree_of, Node, MAX_NESTING};
use vstd::prelude::*;
use vstd::string::StringSliceAdditionalSpecFns;

verus! {

/// What a message is made of, as values.
pub struct MsgView {
    pub name: Seq<char>,
    pub id: int,
    pub fields: Seq<Field>,
}

impl View for MsgSpec {
    type V = MsgView;

    open spec fn view(&self) -> MsgView {
        MsgView { name: self.name@, id: self.id as int, fields: self.fields@ }
    }
}

/// The report line of a rejected field: `<message>.<field>: <cause>`.
pub open spec fn field_error_text(msg_name: Seq<char>, field: Seq<char>, e: ParserError) -> Seq<char> {
    msg_name + "."@ + field + ": "@ + error_text(e)
}

/// The fields whose declaration is accepted, in declaration order.
pub open spec fn fields_of(decls: Seq<(String, Node)>) -> Seq<Field>
    decreases decls.len(),
{
    if decls.len() == 0 {
        Seq::empty()
    } else {
        let prev = fields_of(decls.drop_last());
        match type_of_decl(decls.last().1) {
            Ok(t) => prev.push(Field { name: decls.last().0, t }),
            Err(_) => prev,
        }
    }
}

/// Whether one of `decls` is named `name`.
pub open spec fn has_name(decls: Seq<(String, Node)>, name: Seq<char>) -> bool {
    exists|j: int| 0 <= j < decls.len() && (#[trigger] decls[j]).0@ == name
}

/// The report line of a field declared twice in one message.
pub open spec fn duplicate_field_text(msg_name: Seq<char>, field: Seq<char>) -> Seq<char> {
    msg_name + "."@ + field + ": duplicate field name"@
}

/// One report line per rejected field declaration, in declaration order. A
/// declaration is rejected when its type is, or when an earlier field of the
/// message has its name.
pub open spec fn field_errors(msg_name: Seq<char>, decls: Seq<(String, Node)>) -> Seq<Seq<char>>
    decreases decls.len(),
{
    if decls.len() == 0 {
        Seq::empty()
    } else {
        let prev = field_errors(msg_name, decls.drop_last());
        match type_of_decl(decls.last().1) {
            Ok(_) => if has_name(decls.drop_last(), decls.last().0@) {
                prev.push(duplicate_field_text(msg_name, decls.last().0@))
            } else {
                prev
            },
            Err(e) => prev.push(field_error_text(msg_name, decls.last().0@, e)),
        }
    }
}

/// The messages of one class, named `<Class><Message>`, in declaration order.
pub open spec fn class_msgs(class_name: Seq<char>, msgs: Seq<(String, Node)>) -> Seq<MsgView>
    decreases msgs.len(),
{
    if msgs.len() == 0 {
        Seq::empty()
    } else {
        let prev = class_msgs(class_name, msgs.drop_last());
        match msgs.last().1 {
            Node::Table(decls) => prev.push(MsgView {
                name: class_name + class_case_of(msgs.last().0@),
                id: 0,
                fields: fields_of(decls@),
            }),
            _ => prev,
        }
    }
}

/// The report lines of all rejected fields of one class.
pub open spec fn class_errs(msgs: Seq<(String, Node)>) -> Seq<Seq<char>>
    decreases msgs.len(),
{
    if msgs.len() == 0 {
        Seq::empty()
    } else {
        let prev = class_errs(msgs.drop_last());
        match msgs.last().1 {
            Node::Table(decls) => prev + field_errors(class_case_of(msgs.last().0@), decls@),
            _ => prev,
        }
    }
}

/// The messages of all classes: classes in declaration order, then messages
/// in declaration order within each class.
pub open spec fn all_msgs(classes: Seq<(String, Node)>) -> Seq<MsgView>
    decreases classes.len(),
{
    if classes.len() == 0 {
        Seq::empty()
    } else {
        let prev = all_msgs(classes.drop_last());
        match classes.last().1 {
            Node::Table(msgs) => prev + class_msgs(class_case_of(classes.last().0@), msgs@),
            _ => prev,
        }
    }
}

/// The report lines of all rejected fields of all classes.
pub open spec fn all_errs(classes: Seq<(String, Node)>) -> Seq<Seq<char>>
    decreases classes.len(),
{
    if classes.len() == 0 {
        Seq::empty()
    } else {
        let prev = all_errs(classes.drop_last());
        match classes.last().1 {
            Node::Table(msgs) => prev + class_errs(msgs@),
            _ => prev,
        }
    }
}

/// The messages with their identifiers set to their positions.
pub open spec fn numbered(msgs: Seq<MsgView>) -> Seq<MsgView> {
    Seq::new(msgs.len(), |i: int| MsgView { name: msgs[i].name, id: i, fields: msgs[i].fields })
}

/// The first message of a class whose value is not a table.
pub open spec fn first_bad_message(class: Seq<char>, msgs: Seq<(String, Node)>) -> Option<Seq<char>>
    decreases msgs.len(),
{
    if msgs.len() == 0 {
        None
    } else if msgs[0].1 is Table {
        first_bad_message(class, msgs.drop_first())
    } else {
        Some(class + "."@ + msgs[0].0@ + ": not a table"@)
    }
}

/// The first class, or message of a class, whose value is not a table.
pub open spec fn first_bad_class(classes: Seq<(String, Node)>) -> Option<Seq<char>>
    decreases classes.len(),
{
    if classes.len() == 0 {
        None
    } else {
        match classes[0].1 {
            Node::Table(msgs) => match first_bad_message(classes[0].0@, msgs@) {
                Some(e) => Some(e),
                None => first_bad_class(classes.drop_first()),
            },
            _ => Some(classes[0].0@ + ": not a table"@),
        }
    }
}

/// The structural error of a tree, if any: the root, each class and each
/// message must be a table.
pub open spec fn structure_error(root: Node) -> Option<Seq<char>> {
    match root {
        Node::Table(classes) => first_bad_class(classes@),
        _ => Some("schema root is not a table"@),
    }
}

/// Whether one of `msgs` is named `name`.
pub open spec fn has_msg_name(msgs: Seq<MsgView>, name: Seq<char>) -> bool {
    exists|j: int| 0 <= j < msgs.len() && (#[trigger] msgs[j]).name == name
}

/// One report line per message whose full name an earlier message has.
pub open spec fn duplicate_msg_errs(msgs: Seq<MsgView>) -> Seq<Seq<char>>
    decreases msgs.len(),
{
    if msgs.len() == 0 {
        Seq::empty()
    } else {
        let prev = duplicate_msg_errs(msgs.drop_last());
        if has_msg_name(msgs.drop_last(), msgs.last().name) {
            prev.push(msgs.last().name + ": duplicate message name"@)
        } else {
            prev
        }
    }
}

/// Every report line of a structurally sound schema: the rejected fields,
/// then the messages whose names are taken.
pub open spec fn schema_errs(classes: Seq<(String, Node)>) -> Seq<Seq<char>> {
    all_errs(classes) + duplicate_msg_errs(all_msgs(classes))
}

/// What compiling a tree gives: one structural error; or every rejected
/// field's and every taken message name's report line; or, when there is
/// none, all messages numbered densely from zero in declaration order.
pub open spec fn compile_spec(root: Node) -> Result<Seq<MsgView>, Seq<Seq<char>>> {
    match structure_error(root) {
        Some(e) => Err(seq![e]),
        None => match root {
            Node::Table(classes) => if schema_errs(classes@).len() == 0 {
                Ok(numbered(all_msgs(classes@)))
            } else {
                Err(schema_errs(classes@))
            },
            _ => Err(Seq::empty()),
        },
    }
}

/// The view of an optional text.
pub open spec fn opt_view(o: Option<String>) -> Option<Seq<char>> {
    match o {
        Some(s) => Some(s@),
        None => None,
    }
}

/// The values of a compilation result.
pub open spec fn result_view(r: Result<Vec<MsgSpec>, Vec<String>>) -> Result<Seq<MsgView>, Seq<Seq<char>>> {
    match r {
        Ok(v) => Ok(v@.map_values(|m: MsgSpec| m@)),
        Err(e) => Err(views(e@)),
    }
}

/// Whether a declaration before position `i` has the name of the one at `i`.
fn name_taken(decls: &Vec<(String, Node)>, i: usize) -> (r: bool)
    requires
        i < decls@.len(),
    ensures
        r == has_name(decls@.take(i as int), decls@[i as int].0@),
{
    let mut j: usize = 0;
    while j < i
        invariant
            j <= i < decls@.len(),
            forall|k: int| 0 <= k < j ==> (#[trigger] decls@[k]).0@ != decls@[i as int].0@,
        decreases i - j,
    {
        if decls[j].0 == decls[i].0 {
            assert(decls@.take(i as int)[j as int] == decls@[j as int]);
            return true;
        }
        j = j + 1;
    }
    assert forall|k: int| 0 <= k < i implies (#[trigger] decls@.take(i as int)[k]).0@ != decls@[i as int].0@ by {
        assert(decls@.take(i as int)[k] == decls@[k]);
    }
    false
}

/// The message a field table declares, named `<class><msg_name>` with id 0,
/// and the report lines of its rejected fields. `None` when the value is not a
/// table.
pub fn get_messages(class: &str, msg_name: &str, msg_table: &Node) -> (r: Option<(MsgSpec, Vec<String>)>)
    ensures
        match *msg_table {
            Node::Table(decls) => r matches Some((m, errs)) && m.name@ == class@ + msg_name@ && m.id == 0
                && m.fields@ == fields_of(decls@) && views(errs@) == field_errors(msg_name@, decls@),
            _ => r is None,
        },
{
    let decls = match msg_table {
        Node::Table(decls) => decls,
        _ => {
            return None;
        },
    };
    let mut name = class.to_owned();
    name.append(msg_name);
    let mut fields: Vec<Field> = Vec::new();
    let mut errs: Vec<String> = Vec::new();
    let mut i: usize = 0;
    while i < decls.len()
        invariant
            i <= decls@.len(),
            fields@ == fields_of(decls@.take(i as int)),
            views(errs@) == field_errors(msg_name@, decls@.take(i as int)),
        decreases decls.len() - i,
    {
        proof {
            assert(decls@.take(i + 1).drop_last() =~= decls@.take(i as int));
        }
        match Type::from_toml(&decls[i].1) {
            Ok(t) => {
                if name_taken(decls, i) {
                    let mut line = msg_name.to_owned();
                    line.append(".");
                    line.append(decls[i].0.as_str());
                    line.append(": duplicate field name");
                    let ghost before = errs@;
                    errs.push(line);
                    proof {
                        assert(views(errs@) =~= views(before).push(line@));
                    }
                }
                fields.push(Field { name: decls[i].0.clone(), t });
            },
            Err(e) => {
                let mut line = msg_name.to_owned();
                line.append(".");
                line.append(decls[i].0.as_str());
                line.append(": ");
                line.append(e.message().as_str());
                let ghost before = errs@;
                errs.push(line);
                proof {
                    assert(views(errs@) =~= views(before).push(line@));
                }
            },
        }
        i = i + 1;
    }
    proof {
        assert(decls@.take(decls@.len() as int) =~= decls@);
    }
    Some((MsgSpec { name, id: 0, fields }, errs))
}

/// The messages of one class, in declaration order and with id 0, and the
/// report lines of all their rejected fields. Entries that are not tables
/// are passed over.
pub fn parse_message_class(class: &str, t: &Vec<(String, Node)>) -> (r: (Vec<MsgSpec>, Vec<String>))
    ensures
        r.0@.map_values(|m: MsgSpec| m@) == class_msgs(class@, t@),
        views(r.1@) == class_errs(t@),
{
    let mut msgs: Vec<MsgSpec> = Vec::new();
    let mut errs: Vec<String> = Vec::new();
    let mut i: usize = 0;
    while i < t.len()
        invariant
            i <= t@.len(),
            msgs@.map_values(|m: MsgSpec| m@) == class_msgs(class@, t@.take(i as int)),
            views(errs@) == class_errs(t@.take(i as int)),
        decreases t.len() - i,
    {
        proof {
            assert(t@.take(i + 1).drop_last() =~= t@.take(i as int));
        }
        let msg_name = class_case(t[i].0.as_str());
        match get_messages(class, msg_name.as_str(), &t[i].1) {
            Some((m, mut more)) => {
                let ghost before_m = msgs@;
                let ghost before_e = errs@;
                let ghost more_v = more@;
                msgs.push(m);
                errs.append(&mut more);
                proof {
                    assert(msgs@.map_values(|m: MsgSpec| m@) =~= before_m.map_values(|m: MsgSpec| m@).push(m@));
                    assert(views(errs@) =~= views(before_e) + views(more_v));
                }
            },
            None => {},
        }
        i = i + 1;
    }
    proof {
        assert(t@.take(t@.len() as int) =~= t@);
    }
    (msgs, errs)
}

fn bad_message(class: &String, msgs: &Vec<(String, Node)>) -> (r: Option<String>)
    ensures
        opt_view(r) == first_bad_message(class@, msgs@),
{
    let mut i: usize = 0;
    proof {
        assert(msgs@.subrange(0, msgs@.len() as int) =~= msgs@);
    }
    while i < msgs.len()
        invariant
            i <= msgs@.len(),
            first_bad_message(class@, msgs@) == first_bad_message(class@, msgs@.subrange(i as int, msgs@.len() as int)),
        decreases msgs.len() - i,
    {
        proof {
            assert(msgs@.subrange(i as int, msgs@.len() as int).drop_first() =~= msgs@.subrange(i + 1, msgs@.len() as int));
        }
        match &msgs[i].1 {
            Node::Table(_) => {},
            _ => {
                let mut e = class.clone();
                e.append(".");
                e.append(msgs[i].0.as_str());
                e.append(": not a table");
                return Some(e);
            },
        }
        i = i + 1;
    }
    None
}

/// The structural error of a tree, if any: the root, each class and each
/// message must be a table.
pub fn check_structure(root: &Node) -> (r: Option<String>)
    ensures
        opt_view(r) == structure_error(*root),
{
    let classes = match root {
        Node::Table(classes) => classes,
        _ => {
            return Some("schema root is not a table".to_owned());
        },
    };
    let mut i: usize = 0;
    proof {
        assert(classes@.subrange(0, classes@.len() as int) =~= classes@);
    }
    while i < classes.len()
        invariant
            i <= classes@.len(),
            structure_error(*root) == first_bad_class(classes@),
            first_bad_class(classes@) == first_bad_class(classes@.subrange(i as int, classes@.len() as int)),
        decreases classes.len() - i,
    {
        proof {
            let rest = classes@.subrange(i as int, classes@.len() as int);
            assert(rest.drop_first() =~= classes@.subrange(i + 1, classes@.len() as int));
            assert(rest[0] == classes@[i as int]);
        }
        match &classes[i].1 {
            Node::Table(msgs) => {
                let bad = bad_message(&classes[i].0, msgs);
                if bad.is_some() {
                    return bad;
                }
            },
            _ => {
                let mut e = classes[i].0.clone();
                e.append(": not a table");
                return Some(e);
            },
        }
        i = i + 1;
    }
    None
}

/// Compiles a schema tree. Its root holds the classes (e.g. "outbound",
/// "inbound"), each class its messages, each message its field declarations.
///
/// A structural error (a root, class or message that is not a table) gives
/// that one error. Otherwise every field declaration is checked, and every
/// rejected one gives a line `<Message>.<field>: <cause>`; when there is none,
/// the messages come out in declaration order, classes first, named
/// `<Class><Message>` and numbered 0, 1, 2, ... in that order.
pub fn compile(root: &Node) -> (r: Result<Vec<MsgSpec>, Vec<String>>)
    ensures
        result_view(r) == compile_spec(*root),
{
    let bad = check_structure(root);
    if let Some(e) = bad {
        let errs = vec![e];
        proof {
            assert(views(errs@) =~= seq![e@]);
        }
        return Err(errs);
    }
    let classes = match root {
        Node::Table(classes) => classes,
        _ => {
            return Err(Vec::new());
        },
    };
    let mut msgs: Vec<MsgSpec> = Vec::new();
    let mut errs: Vec<String> = Vec::new();
    let mut i: usize = 0;
    while i < classes.len()
        invariant
            i <= classes@.len(),
            msgs@.map_values(|m: MsgSpec| m@) == all_msgs(classes@.take(i as int)),
            views(errs@) == all_errs(classes@.take(i as int)),
        decreases classes.len() - i,
    {
        proof {
            assert(classes@.take(i + 1).drop_last() =~= classes@.take(i as int));
        }
        match &classes[i].1 {
            Node::Table(t) => {
                let class = class_case(classes[i].0.as_str());
                let (mut more_m, mut more_e) = parse_message_class(class.as_str(), t);
                let ghost before_m = msgs@;
                let ghost before_e = errs@;
                let ghost mm = more_m@;
                let ghost me = more_e@;
                msgs.append(&mut more_m);
                errs.append(&mut more_e);
                proof {
                    assert(msgs@.map_values(|m: MsgSpec| m@) =~= before_m.map_values(|m: MsgSpec| m@) + mm.map_values(|m: MsgSpec| m@));
                    assert(views(errs@) =~= views(before_e) + views(me));
                }
            },
            _ => {},
        }
        i = i + 1;
    }
    proof {
        assert(classes@.take(classes@.len() as int) =~= classes@);
    }
    let ghost all = all_msgs(classes@);
    let mut dups: Vec<String> = Vec::new();
    let mut i: usize = 0;
    while i < msgs.len()
        invariant
            i <= msgs@.len(),
            msgs@.map_values(|m: MsgSpec| m@) == all,
            views(dups@) == duplicate_msg_errs(all.take(i as int)),
        decreases msgs.len() - i,
    {
        proof {
            assert(all.take(i + 1).drop_last() =~= all.take(i as int));
            assert(all.take(i + 1).last() == msgs@[i as int]@);
        }
        let mut taken = false;
        let mut j: usize = 0;
        while j < i
            invariant
                j <= i < msgs@.len(),
                msgs@.map_values(|m: MsgSpec| m@) == all,
                taken == has_msg_name(all.take(j as int), msgs@[i as int].name@),
            decreases i - j,
        {
            proof {
                assert(all.take(j + 1) =~= all.take(j as int).push(all[j as int]));
                assert(all.take(j + 1)[j as int] == all[j as int]);
                if has_msg_name(all.take(j as int), msgs@[i as int].name@) {
                    let w = choose|w: int| 0 <= w < j && (#[trigger] all.take(j as int)[w]).name == msgs@[i as int].name@;
                    assert(all.take(j + 1)[w] == all.take(j as int)[w]);
                }
                if has_msg_name(all.take(j + 1), msgs@[i as int].name@) {
                    let w = choose|w: int| 0 <= w < j + 1 && (#[trigger] all.take(j + 1)[w]).name == msgs@[i as int].name@;
                    if w < j {
                        assert(all.take(j as int)[w] == all.take(j + 1)[w]);
                    }
                }
            }
            if msgs[j].name == msgs[i].name {
                taken = true;
            }
            j = j + 1;
        }
        proof {
            assert(all.take(i as int) == all.take(i + 1).drop_last());
        }
        if taken {
            let mut line = msgs[i].name.clone();
            line.append(": duplicate message name");
            let ghost before = dups@;
            dups.push(line);
            proof {
                assert(views(dups@) =~= views(before).push(line@));
            }
        }
        i = i + 1;
    }
    proof {
        assert(all.take(msgs@.len() as int) =~= all);
    }
    let ghost before_e = errs@;
    let ghost dv = dups@;
    errs.append(&mut dups);
    proof {
        assert(views(errs@) =~= views(before_e) + views(dv));
    }
    if errs.len() > 0 {
        return Err(errs);
    }
    let mut k: usize = 0;
    while k < msgs.len()
        invariant
            k <= msgs@.len(),
            msgs@.len() == all.len(),
            forall|j: int| 0 <= j < k ==> #[trigger] msgs@[j]@ == numbered(all)[j],
            forall|j: int| k <= j < msgs@.len() ==> #[trigger] msgs@[j]@ == all[j],
        decreases msgs.len() - k,
    {
        let ghost before = msgs@;
        msgs[k].id = k;
        proof {
            assert(before[k as int]@ == all[k as int]);
            assert(msgs@[k as int].name == before[k as int].name);
            assert(msgs@[k as int].fields == before[k as int].fields);
            assert(msgs@[k as int]@ == numbered(all)[k as int]);
            assert forall|j: int| 0 <= j < k + 1 implies #[trigger] msgs@[j]@ == numbered(all)[j] by {
                if j < k {
                    assert(msgs@[j] == before[j]);
                }
            }
        }
        k = k + 1;
    }
    proof {
        assert(msgs@.map_values(|m: MsgSpec| m@) =~= numbered(all));
    }
    Ok(msgs)
}

/// Reads a TOML schema and compiles it as `compile` does. Text that is not
/// TOML gives the one error `IoError at TOML parsing!`; text that nests
/// deeper than `MAX_NESTING` gives the one error `schema nests too deeply`.
pub fn parse_toml(contents: &str) -> (r: Result<Vec<MsgSpec>, Vec<String>>)
    ensures
        nesting_depth(contents.spec_bytes()) > MAX_NESTING ==> result_view(r) == Err::<Seq<MsgView>, Seq<Seq<char>>>(
            seq!["schema nests too deeply"@],
        ),
        nesting_depth(contents.spec_bytes()) <= MAX_NESTING ==> result_view(r) == match toml_tree_of(contents@) {
            Some(root) => compile_spec(root),
            None => Err(seq!["IoError at TOML parsing!"@]),
        },
{
    if measure_nesting(contents) > MAX_NESTING {
        let errs = vec!["schema nests too deeply".to_owned()];
        proof {
            assert(views(errs@) =~= seq!["schema nests too deeply"@]);
        }
        return Err(errs);
    }
    match read_document(contents) {
        None => {
            let errs = vec!["IoError at TOML parsing!".to_owned()];
            proof {
                assert(views(errs@) =~= seq!["IoError at TOML parsing!"@]);
            }
            Err(errs)
        },
        Some(root) => compile(&root),
    }
}

/// Number of rejected field declarations among `decls`.
pub open spec fn rejected_fields(decls: Seq<(String, Node)>) -> nat
    decreases decls.len(),
{
    if decls.len() == 0 {
        0
    } else {
        rejected_fields(decls.drop_last()) + if type_of_decl(decls.last().1) is Err || has_name(
            decls.drop_last(),
            decls.last().0@,
        ) {
            1nat
        } else {
            0nat
        }
    }
}

/// Number of rejected field declarations in the messages of a class.
pub open spec fn rejected_in_class(msgs: Seq<(String, Node)>) -> nat
    decreases msgs.len(),
{
    if msgs.len() == 0 {
        0
    } else {
        rejected_in_class(msgs.drop_last()) + match msgs.last().1 {
            Node::Table(decls) => rejected_fields(decls@),
            _ => 0nat,
        }
    }
}

/// Number of rejected field declarations in a whole schema.
pub open spec fn rejected_in_schema(classes: Seq<(String, Node)>) -> nat
    decreases classes.len(),
{
    if classes.len() == 0 {
        0
    } else {
        rejected_in_schema(classes.drop_last()) + match classes.last().1 {
            Node::Table(msgs) => rejected_in_class(msgs@),
            _ => 0nat,
        }
    }
}

proof fn lemma_field_errors_len(name: Seq<char>, decls: Seq<(String, Node)>)
    ensures
        field_errors(name, decls).len() == rejected_fields(decls),
    decreases decls.len(),
{
    if decls.len() > 0 {
        lemma_field_errors_len(name, decls.drop_last());
    }
}

proof fn lemma_class_errs_len(msgs: Seq<(String, Node)>)
    ensures
        class_errs(msgs).len() == rejected_in_class(msgs),
    decreases msgs.len(),
{
    if msgs.len() > 0 {
        lemma_class_errs_len(msgs.drop_last());
        if let Node::Table(decls) = msgs.last().1 {
            lemma_field_errors_len(class_case_of(msgs.last().0@), decls@);
        }
    }
}

proof fn lemma_all_errs_len(classes: Seq<(String, Node)>)
    ensures
        all_errs(classes).len() == rejected_in_schema(classes),
    decreases classes.len(),
{
    if classes.len() > 0 {
        lemma_all_errs_len(classes.drop_last());
        if let Node::Table(msgs) = classes.last().1 {
            lemma_class_errs_len(msgs@);
        }
    }
}

/// Number of messages whose full name an earlier message has.
pub open spec fn duplicate_messages(msgs: Seq<MsgView>) -> nat
    decreases msgs.len(),
{
    if msgs.len() == 0 {
        0
    } else {
        duplicate_messages(msgs.drop_last()) + if has_msg_name(msgs.drop_last(), msgs.last().name) {
            1nat
        } else {
            0nat
        }
    }
}

proof fn lemma_duplicate_errs_len(msgs: Seq<MsgView>)
    ensures
        duplicate_msg_errs(msgs).len() == duplicate_messages(msgs),
    decreases msgs.len(),
{
    if msgs.len() > 0 {
        lemma_duplicate_errs_len(msgs.drop_last());
    }
}

/// Errors are collected, not cut short: a structurally sound schema gives
/// exactly one report line per rejected field and per taken message name,
/// and no messages when there is any; without any it gives its messages.
pub proof fn lemma_errors_accumulate(classes: Vec<(String, Node)>)
    requires
        structure_error(Node::Table(classes)) is None,
    ensures
        ({
            let n = rejected_in_schema(classes@) + duplicate_messages(all_msgs(classes@));
            &&& n == 0 ==> compile_spec(Node::Table(classes)) is Ok
            &&& n > 0 ==> (compile_spec(Node::Table(classes)) matches Err(errs) && errs.len() == n)
        }),
{
    lemma_all_errs_len(classes@);
    lemma_duplicate_errs_len(all_msgs(classes@));
}

/// Identifiers are dense and follow declaration order: the message at
/// position `i` of a compiled schema has id `i`, and the messages come in the
/// order of their classes, then of their declarations.
pub proof fn lemma_ids_dense(root: Node)
    ensures
        compile_spec(root) matches Ok(v) ==> (root matches Node::Table(classes)
            && v.len() == all_msgs(classes@).len()
            && forall|i: int| 0 <= i < v.len() ==> (#[trigger] v[i]).id == i
                && v[i].name == all_msgs(classes@)[i].name
                && v[i].fields == all_msgs(classes@)[i].fields),
{
}

/// Compilation is deterministic: two compilations of one tree give the same
/// messages, with the same identifiers, or the same errors.
pub proof fn lemma_compile_deterministic(
    root: Node,
    r1: Result<Vec<MsgSpec>, Vec<String>>,
    r2: Result<Vec<MsgSpec>, Vec<String>>,
)
    requires
        result_view(r1) == compile_spec(root),
        result_view(r2) == compile_spec(root),
    ensures
        result_view(r1) == result_view(r2),
{
}

proof fn lemma_fields_well_formed(decls: Seq<(String, Node)>)
    ensures
        forall|j: int| 0 <= j < fields_of(decls).len() ==> well_formed_type(#[trigger] fields_of(decls)[j].t),
    decreases decls.len(),
{
    if decls.len() > 0 {
        lemma_fields_well_formed(decls.drop_last());
        lemma_decl_well_formed(decls.last().1);
    }
}

proof fn lemma_class_well_formed(class_name: Seq<char>, msgs: Seq<(String, Node)>)
    ensures
        forall|i: int, j: int|
            0 <= i < class_msgs(class_name, msgs).len() && 0 <= j < class_msgs(class_name, msgs)[i].fields.len()
                ==> well_formed_type(#[trigger] class_msgs(class_name, msgs)[i].fields[j].t),
    decreases msgs.len(),
{
    if msgs.len() > 0 {
        lemma_class_well_formed(class_name, msgs.drop_last());
        if let Node::Table(decls) = msgs.last().1 {
            lemma_fields_well_formed(decls@);
        }
    }
}

proof fn lemma_all_well_formed(classes: Seq<(String, Node)>)
    ensures
        forall|i: int, j: int|
            0 <= i < all_msgs(classes).len() && 0 <= j < all_msgs(classes)[i].fields.len()
                ==> well_formed_type(#[trigger] all_msgs(classes)[i].fields[j].t),
    decreases classes.len(),
{
    if classes.len() > 0 {
        let prev = all_msgs(classes.drop_last());
        lemma_all_well_formed(classes.drop_last());
        if let Node::Table(msgs) = classes.last().1 {
            let cm = class_msgs(class_case_of(classes.last().0@), msgs@);
            lemma_class_well_formed(class_case_of(classes.last().0@), msgs@);
            assert forall|i: int, j: int|
                0 <= i < all_msgs(classes).len() && 0 <= j < all_msgs(classes)[i].fields.len()
                    implies well_formed_type(#[trigger] all_msgs(classes)[i].fields[j].t) by {
                if i < prev.len() {
                    assert(all_msgs(classes)[i] == prev[i]);
                } else {
                    assert(all_msgs(classes)[i] == cm[i - prev.len()]);
                }
            }
        }
    }
}

/// Every field type of a compiled schema keeps the model's invariants
/// (`well_formed_type`): ordered bounds, float bounds of single-precision
/// range, and a positive array length.
pub proof fn lemma_compiled_types_well_formed(root: Node)
    ensures
        compile_spec(root) matches Ok(v) ==> forall|i: int, j: int|
            0 <= i < v.len() && 0 <= j < v[i].fields.len() ==> well_formed_type(#[trigger] v[i].fields[j].t),
{
    if let Node::Table(classes) = root {
        lemma_all_well_formed(classes@);
    }
}

} // verus!

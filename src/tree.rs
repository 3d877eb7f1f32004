//! The untyped key/value tree that a schema is read from, and how a TOML
//! document becomes one.
use crate::float::Double;
use vstd::prelude::*;
use vstd::string::StringSliceAdditionalSpecFns;

verus! {

/// A node of an untyped configuration tree. A table keeps its entries in the
/// order in which the document declares them.
#[derive(Debug)]
pub enum Node {
    Str(String),
    Int(i64),
    Float(Double),
    Table(Vec<(String, Node)>),
    Other,
}

/// The value of the first entry named `key`, if any.
pub open spec fn lookup(entries: Seq<(String, Node)>, key: Seq<char>) -> Option<Node>
    decreases entries.len(),
{
    if entries.len() == 0 {
        None
    } else if entries[0].0@ == key {
        Some(entries[0].1)
    } else {
        lookup(entries.drop_first(), key)
    }
}

/// Position of the first entry named `key`, if any.
pub fn find(entries: &Vec<(String, Node)>, key: &str) -> (r: Option<usize>)
    ensures
        match r {
            Some(i) => i < entries@.len() && lookup(entries@, key@) == Some(entries@[i as int].1),
            None => lookup(entries@, key@) is None,
        },
{
    let k = key.to_owned();
    let mut i: usize = 0;
    proof {
        assert(entries@.subrange(0, entries@.len() as int) =~= entries@);
    }
    while i < entries.len()
        invariant
            i <= entries@.len(),
            k@ == key@,
            lookup(entries@, key@) == lookup(entries@.subrange(i as int, entries@.len() as int), key@),
        decreases entries.len() - i,
    {
        let ghost rest = entries@.subrange(i as int, entries@.len() as int);
        proof {
            assert(rest.drop_first() =~= entries@.subrange(i + 1, entries@.len() as int));
        }
        if entries[i].0 == k {
            return Some(i);
        }
        i = i + 1;
    }
    None
}

#[verifier::external_type_specification]
#[verifier::external_body]
pub struct ExTomlValue(toml::Value);

/// Deepest nesting a text handed to the TOML parser may have, as
/// `nesting_depth` measures it. toml's parser, serde's visitors and the
/// conversion into a tree recurse once per level, a few stack frames each;
/// a schema needs four levels, and 32 fit many times over in the smallest
/// thread stack Rust gives (2 MiB).
pub const MAX_NESTING: u128 = 32;

/// The state of a scan for nesting: the lexical mode (0 code, 1 comment,
/// 2 string, 3 literal string, 4 multi-line string, 5 multi-line literal
/// string), the arrays and inline tables open, the marks of the current
/// statement and of the last table header, whether the statement is a
/// header, whether it has begun, and the deepest nesting seen.
#[derive(Clone, Copy)]
pub struct Scan {
    pub mode: u8,
    pub open: u128,
    pub stmt: u128,
    pub header: u128,
    pub is_header: bool,
    pub fresh: bool,
    pub peak: u128,
}

/// Whether a byte may add a level: `[`, `{`, or the `.` of a dotted key.
pub open spec fn is_mark(c: u8) -> bool {
    c == 0x5b || c == 0x7b || c == 0x2e
}

/// The state at the start of a text.
pub open spec fn scan_start() -> Scan {
    Scan { mode: 0, open: 0, stmt: 0, header: 0, is_header: false, fresh: true, peak: 0 }
}

/// A newline: back in code; outside any array or inline table it ends the
/// statement, and a header's marks carry over to the statements under it.
pub open spec fn scan_newline(s: Scan) -> Scan {
    if s.open == 0 {
        Scan {
            mode: 0,
            open: 0,
            stmt: 0,
            header: if s.is_header { s.stmt } else { s.header },
            is_header: false,
            fresh: true,
            peak: s.peak,
        }
    } else {
        Scan { mode: 0, ..s }
    }
}

/// One more mark in the current statement, if `c` is one.
pub open spec fn scan_count(s: Scan, c: u8) -> Scan {
    if is_mark(c) {
        Scan { stmt: (s.stmt + 1) as u128, ..s }
    } else {
        s
    }
}

/// Where the scan goes from byte `i` in state `s`: the next position and
/// state. Marks count in every mode; brackets close and statements end only
/// in code.
pub open spec fn scan_step(b: Seq<u8>, i: int, s: Scan) -> (int, Scan) {
    let c = b[i];
    let triple = b.len() - i > 2 && b[i + 1] == c && b[i + 2] == c;
    if s.mode == 0 {
        if c == 0x0a {
            (i + 1, scan_newline(s))
        } else if c == 0x23 {
            (i + 1, Scan { mode: 1, fresh: false, ..s })
        } else if c == 0x22 {
            if triple { (i + 3, Scan { mode: 4, fresh: false, ..s }) } else { (i + 1, Scan { mode: 2, fresh: false, ..s }) }
        } else if c == 0x27 {
            if triple { (i + 3, Scan { mode: 5, fresh: false, ..s }) } else { (i + 1, Scan { mode: 3, fresh: false, ..s }) }
        } else if c == 0x5b || c == 0x7b {
            (i + 1, Scan {
                open: (s.open + 1) as u128,
                stmt: (s.stmt + 1) as u128,
                is_header: s.is_header || (s.fresh && c == 0x5b),
                fresh: false,
                ..s
            })
        } else if c == 0x5d || c == 0x7d {
            (i + 1, Scan { open: if s.open > 0 { (s.open - 1) as u128 } else { 0 }, fresh: false, ..s })
        } else if c == 0x20 || c == 0x09 || c == 0x0d {
            (i + 1, s)
        } else {
            (i + 1, Scan { fresh: false, ..scan_count(s, c) })
        }
    } else if s.mode == 1 {
        if c == 0x0a { (i + 1, scan_newline(s)) } else { (i + 1, scan_count(s, c)) }
    } else if s.mode == 2 {
        if c == 0x0a {
            (i + 1, scan_newline(s))
        } else if c == 0x5c {
            (if i + 1 < b.len() { i + 2 } else { i + 1 }, s)
        } else if c == 0x22 {
            (i + 1, Scan { mode: 0, ..s })
        } else {
            (i + 1, scan_count(s, c))
        }
    } else if s.mode == 3 {
        if c == 0x0a {
            (i + 1, scan_newline(s))
        } else if c == 0x27 {
            (i + 1, Scan { mode: 0, ..s })
        } else {
            (i + 1, scan_count(s, c))
        }
    } else if s.mode == 4 {
        if c == 0x5c {
            (if i + 1 < b.len() { i + 2 } else { i + 1 }, s)
        } else if c == 0x22 && triple {
            (i + 3, Scan { mode: 0, ..s })
        } else {
            (i + 1, scan_count(s, c))
        }
    } else {
        if c == 0x27 && triple { (i + 3, Scan { mode: 0, ..s }) } else { (i + 1, scan_count(s, c)) }
    }
}

/// The state with its peak raised to the current nesting: the marks of the
/// statement and of the header above it.
pub open spec fn scan_peak(s: Scan) -> Scan {
    let d = s.stmt + s.header;
    Scan { peak: if d > s.peak { d as u128 } else { s.peak }, ..s }
}

/// The deepest nesting of the rest of `b` from position `i` in state `s`.
pub open spec fn scan_from(b: Seq<u8>, i: int, s: Scan) -> u128
    decreases b.len() - i,
{
    if i < 0 || i >= b.len() {
        s.peak
    } else {
        let (j, t) = scan_step(b, i, s);
        scan_from(b, j, scan_peak(t))
    }
}

/// How deep a TOML text can nest: the largest number, at any point, of
/// `[`, `{` and `.` bytes in the current statement plus those of the table
/// header above it. A statement ends at a newline outside every array and
/// inline table; brackets close only outside strings and comments, which
/// are told apart as TOML's lexer does. This is never less than the depth
/// toml's parser and tree reach.
pub open spec fn nesting_depth(bytes: Seq<u8>) -> u128 {
    scan_from(bytes, 0, scan_start())
}

/// Whether the fields of a scan state are within what `i` bytes can reach.
pub open spec fn scan_bounded(s: Scan, i: int) -> bool {
    s.open <= i && s.stmt <= i && s.header <= i && s.peak <= 2 * i
}

fn scan_step_exec(b: &[u8], i: usize, s: Scan) -> (r: (usize, Scan))
    requires
        i < b@.len(),
        scan_bounded(s, i as int),
    ensures
        (r.0 as int, r.1) == scan_step(b@, i as int, s),
        i < r.0,
        scan_bounded(r.1, r.0 as int),
        scan_bounded(scan_peak(r.1), r.0 as int),
{
    let c = b[i];
    let triple = b.len() - i > 2 && b[i + 1] == c && b[i + 2] == c;
    let count = if c == 0x5b || c == 0x7b || c == 0x2e { Scan { stmt: s.stmt + 1, ..s } } else { s };
    let newline = if s.open == 0 {
        Scan {
            mode: 0,
            open: 0,
            stmt: 0,
            header: if s.is_header { s.stmt } else { s.header },
            is_header: false,
            fresh: true,
            peak: s.peak,
        }
    } else {
        Scan { mode: 0, ..s }
    };
    let skip = if b.len() - i > 1 { i + 2 } else { i + 1 };
    if s.mode == 0 {
        if c == 0x0a {
            (i + 1, newline)
        } else if c == 0x23 {
            (i + 1, Scan { mode: 1, fresh: false, ..s })
        } else if c == 0x22 {
            if triple { (i + 3, Scan { mode: 4, fresh: false, ..s }) } else { (i + 1, Scan { mode: 2, fresh: false, ..s }) }
        } else if c == 0x27 {
            if triple { (i + 3, Scan { mode: 5, fresh: false, ..s }) } else { (i + 1, Scan { mode: 3, fresh: false, ..s }) }
        } else if c == 0x5b || c == 0x7b {
            (i + 1, Scan { open: s.open + 1, stmt: s.stmt + 1, is_header: s.is_header || (s.fresh && c == 0x5b), fresh: false, ..s })
        } else if c == 0x5d || c == 0x7d {
            (i + 1, Scan { open: if s.open > 0 { s.open - 1 } else { 0 }, fresh: false, ..s })
        } else if c == 0x20 || c == 0x09 || c == 0x0d {
            (i + 1, s)
        } else {
            (i + 1, Scan { fresh: false, ..count })
        }
    } else if s.mode == 1 {
        if c == 0x0a { (i + 1, newline) } else { (i + 1, count) }
    } else if s.mode == 2 {
        if c == 0x0a {
            (i + 1, newline)
        } else if c == 0x5c {
            (skip, s)
        } else if c == 0x22 {
            (i + 1, Scan { mode: 0, ..s })
        } else {
            (i + 1, count)
        }
    } else if s.mode == 3 {
        if c == 0x0a {
            (i + 1, newline)
        } else if c == 0x27 {
            (i + 1, Scan { mode: 0, ..s })
        } else {
            (i + 1, count)
        }
    } else if s.mode == 4 {
        if c == 0x5c {
            (skip, s)
        } else if c == 0x22 && triple {
            (i + 3, Scan { mode: 0, ..s })
        } else {
            (i + 1, count)
        }
    } else {
        if c == 0x27 && triple { (i + 3, Scan { mode: 0, ..s }) } else { (i + 1, count) }
    }
}

/// How deep a text can nest, as `nesting_depth` measures it.
pub fn measure_nesting(text: &str) -> (r: u128)
    ensures
        r == nesting_depth(text.spec_bytes()),
{
    let b = text.as_bytes();
    let mut s = Scan { mode: 0, open: 0, stmt: 0, header: 0, is_header: false, fresh: true, peak: 0 };
    let mut i: usize = 0;
    while i < b.len()
        invariant
            b@ == text.spec_bytes(),
            scan_bounded(s, i as int),
            scan_from(b@, 0, scan_start()) == scan_from(b@, i as int, s),
        decreases b.len() - i,
    {
        let (j, t) = scan_step_exec(b, i, s);
        let d = t.stmt + t.header;
        s = Scan { peak: if d > t.peak { d } else { t.peak }, ..t };
        i = j;
    }
    s.peak
}

/// The tree toml makes of a text: `None` when it is not a TOML document.
pub uninterp spec fn toml_tree_of(text: Seq<char>) -> Option<Node>;

/// Relies on the variants of `toml::Value` and on `toml::map::Map::iter`,
/// which walks a table in document order (feature `preserve_order`): copies
/// a value into a tree, one node per value. A float is carried as its bit
/// pattern; booleans, dates and arrays, which a schema never holds, become
/// `Other`.
#[verifier::external_body]
fn node_of_value(v: &toml::Value) -> Node {
    match v {
        toml::Value::String(s) => Node::Str(s.clone()),
        toml::Value::Integer(i) => Node::Int(*i),
        toml::Value::Float(x) => Node::Float(Double { bits: x.to_bits() }),
        toml::Value::Table(t) => Node::Table(t.iter().map(|(k, x)| (k.clone(), node_of_value(x))).collect()),
        _ => Node::Other,
    }
}

/// Relies on toml's `FromStr for Value`, which parses a whole TOML document
/// and depends on the text alone, with `node_of_value` copying the result.
/// toml's parser recurses without a limit, hence the bound on nesting
/// depth (see `MAX_NESTING`).
#[verifier::external_body]
fn parse_tree(text: &str) -> (r: Option<Node>)
    requires
        nesting_depth(text.spec_bytes()) <= MAX_NESTING,
    ensures
        r == toml_tree_of(text@),
{
    text.parse::<toml::Value>().ok().map(|v| node_of_value(&v))
}

/// Reads a TOML document into a tree, keeping each table's entries in
/// document order. `None` when the text is not TOML, or nests deeper than
/// `MAX_NESTING` allows.
pub fn read_document(text: &str) -> (r: Option<Node>)
    ensures
        nesting_depth(text.spec_bytes()) > MAX_NESTING ==> r is None,
        nesting_depth(text.spec_bytes()) <= MAX_NESTING ==> r == toml_tree_of(text@),
{
    if measure_nesting(text) > MAX_NESTING {
        None
    } else {
        parse_tree(text)
    }
}

} // verus!

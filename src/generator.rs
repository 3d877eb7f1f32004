//! The interface every target language's emitter implements.
use crate::message::MsgSpec;
use vstd::prelude::*;

verus! {

/// The views of a list of `(file name, file text)` pairs.
pub open spec fn files_view(files: Seq<(String, String)>) -> Seq<(Seq<char>, Seq<char>)> {
    files.map_values(|f: (String, String)| (f.0@, f.1@))
}

/// An emitter: from the messages of a schema and a build identifier to the
/// source files of one target language, as `(file name, text)` pairs.
pub trait Generator {
    /// The message lists this emitter accepts.
    spec fn admits(messages: Seq<MsgSpec>) -> bool;

    /// The files this emitter writes for `messages` and `uid`.
    spec fn output(messages: Seq<MsgSpec>, uid: u32) -> Seq<(Seq<char>, Seq<char>)>;

    fn generate_messages(messages: &Vec<MsgSpec>, uid: u32) -> (r: Vec<(String, String)>)
        requires
            Self::admits(messages@),
        ensures
            files_view(r@) == Self::output(messages@, uid),
    ;
}

/// Emission is deterministic: two emissions of the same messages with the
/// same build identifier give the same files, byte for byte.
pub proof fn lemma_emission_deterministic<G: Generator>(
    messages: Seq<MsgSpec>,
    uid: u32,
    r1: Seq<(String, String)>,
    r2: Seq<(String, String)>,
)
    requires
        files_view(r1) == G::output(messages, uid),
        files_view(r2) == G::output(messages, uid),
    ensures
        files_view(r1) == files_view(r2),
{
}

} // verus!

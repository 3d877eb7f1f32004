use inflector::Inflector;
use vstd::prelude::*;

verus! {

/// What `Inflector::to_class_case` makes of a text.
pub uninterp spec fn class_case_of(s: Seq<char>) -> Seq<char>;

/// What `Inflector::to_snake_case` makes of a text.
pub uninterp spec fn snake_case_of(s: Seq<char>) -> Seq<char>;

/// Relies on `Inflector::to_class_case`: the result depends on the text alone.
#[verifier::external_body]
pub(crate) fn class_case(s: &str) -> (r: String)
    ensures
        r@ == class_case_of(s@),
{
    s.to_class_case()
}

/// Relies on `Inflector::to_snake_case`: the result depends on the text alone.
#[verifier::external_body]
pub(crate) fn snake_case(s: &str) -> (r: String)
    ensures
        r@ == snake_case_of(s@),
{
    s.to_snake_case()
}

} // verus!

//! Identifier case conversion, delegated to the `convert_case` crate.
//!
//! A converted name is a function of the input characters alone, so
//! each conversion's result is given a name that the templating
//! contracts speak of exactly.

use vstd::prelude::*;
use convert_case::Case;
use convert_case::Casing;

verus! {

/// The snake_case form of `s`, as `convert_case` computes it.
pub uninterp spec fn snake_of(s: Seq<char>) -> Seq<char>;

/// The PascalCase form of `s`, as `convert_case` computes it.
pub uninterp spec fn pascal_of(s: Seq<char>) -> Seq<char>;

/// The kebab-case form of `s`, as `convert_case` computes it.
pub uninterp spec fn kebab_of(s: Seq<char>) -> Seq<char>;

/// Relies on `convert_case`'s `Casing::to_case` with `Case::Snake`:
/// the result depends on the input characters alone.
#[verifier::external_body]
pub(crate) fn to_snake_case(s: &str) -> (r: String)
    ensures
        r@ == snake_of(s@),
{
    s.to_case(Case::Snake)
}

/// Relies on `convert_case`'s `Casing::to_case` with `Case::Pascal`:
/// the result depends on the input characters alone.
#[verifier::external_body]
pub(crate) fn to_pascal_case(s: &str) -> (r: String)
    ensures
        r@ == pascal_of(s@),
{
    s.to_case(Case::Pascal)
}

/// Relies on `convert_case`'s `Casing::to_case` with `Case::Kebab`:
/// the result depends on the input characters alone.
#[verifier::external_body]
pub(crate) fn to_kebab_case(s: &str) -> (r: String)
    ensures
        r@ == kebab_of(s@),
{
    s.to_case(Case::Kebab)
}

} // verus!

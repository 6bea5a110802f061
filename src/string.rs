//! String-handling utilities.

use vstd::prelude::*;

verus! {

/// Placeholder for a string-handling utility type.
pub struct Str;

impl Str {
    /// The name that `Str::name` reports.
    pub open spec fn spec_name() -> Seq<char> {
        "veeox-string::Str"@
    }

    /// The fixed name of this type.
    #[must_use]
    pub fn name() -> (r: &'static str)
        ensures
            r@ == Self::spec_name(),
    {
        "veeox-string::Str"
    }

    /// Any two results of `Str::name` are the same string: the name does not
    /// depend on when or how often it is asked for.
    pub proof fn lemma_name_deterministic(a: &str, b: &str)
        requires
            a@ == Self::spec_name(),
            b@ == Self::spec_name(),
        ensures
            a@ == b@,
    {
    }
}

} // verus!

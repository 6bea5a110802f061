//! The public API facade.

use vstd::prelude::*;

verus! {

/// Placeholder for the public API facade.
pub struct Api;

impl Api {
    /// The name that `Api::name` reports.
    pub open spec fn spec_name() -> Seq<char> {
        "veeox-api::Api"@
    }

    /// The fixed name of this type.
    #[must_use]
    pub fn name() -> (r: &'static str)
        ensures
            r@ == Self::spec_name(),
    {
        "veeox-api::Api"
    }

    /// Any two results of `Api::name` are the same string: the name does not
    /// depend on when or how often it is asked for.
    pub proof fn lemma_name_deterministic(a: &str, b: &str)
        requires
            a@ == Self::spec_name(),
            b@ == Self::spec_name(),
        ensures
            a@ == b@,
    {
    }
}

} // verus!

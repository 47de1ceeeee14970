//! Target triples, taken from `target_tuples`, and the three spellings of one
//! that a compiler may be offered.

use vstd::prelude::*;

use target_tuples::{Target, Vendor};

verus! {

#[verifier::external_type_specification]
#[verifier::external_body]
pub struct ExTarget(Target);

/// The triple exactly as it was written.
pub uninterp spec fn exact_of(t: Target) -> Seq<char>;

/// The triple's canonical form.
pub uninterp spec fn canonical_of(t: Target) -> Seq<char>;

/// The same triple with its vendor set to unknown.
pub uninterp spec fn normalized_of(t: Target) -> Target;

/// Relies on `target_tuples::Target::get_name`: the triple exactly as it was
/// written, which depends on the target alone.
#[verifier::external_body]
fn exact_name(t: &Target) -> (r: String)
    ensures
        r@ == exact_of(*t),
{
    t.get_name().to_string()
}

/// Relies on the `Display` impl of `target_tuples::Target`: the triple's
/// canonical form, which depends on the target alone.
#[verifier::external_body]
fn canonical_name(t: &Target) -> (r: String)
    ensures
        r@ == canonical_of(*t),
{
    t.to_string()
}

/// Relies on `target_tuples::Target::from_components`: the same triple with
/// its vendor set to unknown, which depends on the target alone.
#[verifier::external_body]
fn with_unknown_vendor(t: &Target) -> (r: Target)
    ensures
        r == normalized_of(*t),
{
    Target::from_components(
        t.arch(),
        Vendor::Unknown,
        t.operating_system(),
        t.environment(),
        t.object_format(),
    )
}

/// The spellings of a target triple, in the order they are offered to a
/// compiler: as written, canonical, and canonical with an unknown vendor.
pub struct TargetNames {
    pub exact: String,
    pub canonical: String,
    pub normalized: String,
}

impl TargetNames {
    /// The spellings of `t`.
    pub fn of(t: &Target) -> (r: TargetNames)
        ensures
            r.exact@ == exact_of(*t),
            r.canonical@ == canonical_of(*t),
            r.normalized@ == canonical_of(normalized_of(*t)),
    {
        let normalized = with_unknown_vendor(t);
        TargetNames {
            exact: exact_name(t),
            canonical: canonical_name(t),
            normalized: canonical_name(&normalized),
        }
    }
}

} // verus!

//! Generation settings: an immutable configuration record read by every
//! generation step.

use vstd::prelude::*;

verus! {

/// Settings that control how optional values are represented in generated
/// schemas. Both flags are independent; all four combinations are valid and
/// produce distinct outputs.
#[derive(Clone, Copy, Debug, PartialEq, Eq, Structural)]
pub struct SchemaSettings {
    /// Represent optionality via the `nullable` extension flag rather than a
    /// type union, and generate the wrapped type's schema inline (never as a
    /// reference) in that position.
    pub option_nullable: bool,
    /// Widen the instance-type constraint, or the subschema set, so that the
    /// schema explicitly admits "no value".
    pub option_add_null_type: bool,
}

impl SchemaSettings {
    /// The default settings: no `nullable` extension flag, but widen instance
    /// types with the null type tag.
    pub open spec fn spec_default() -> SchemaSettings {
        SchemaSettings { option_nullable: false, option_add_null_type: true }
    }
}

impl Default for SchemaSettings {
    fn default() -> (r: Self)
        ensures
            r == SchemaSettings::spec_default(),
    {
        SchemaSettings { option_nullable: false, option_add_null_type: true }
    }
}

} // verus!

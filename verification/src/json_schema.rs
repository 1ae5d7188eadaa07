//! The per-type schema contract: every describable type produces a canonical
//! name, a full schema, and a schema suitable for use when the value stands
//! in a contextually optional position inside an object's field list.

use vstd::prelude::*;

use crate::assoc::assoc_get;
use crate::generator::SchemaGenerator;
use crate::schema::Schema;
use crate::schema::SchemaView;
use crate::schema::schema_view_wf;
use crate::settings::SchemaSettings;

verus! {

/// A type that can describe itself as a schema.
///
/// Generation is deterministic and pure relative to its inputs: the schema a
/// type produces is a function of the active settings alone, stated by
/// [`JsonSchema::spec_schema`]; producing it may register named definitions
/// with the generator, but never removes or rewrites a definition that is
/// already registered.
pub trait JsonSchema {
    /// The model of this type's canonical name.
    spec fn spec_name() -> Seq<char>;

    /// Whether this type is represented by a named, reusable definition.
    spec fn spec_is_referenceable() -> bool;

    /// The model of this type's full schema under the given settings.
    spec fn spec_schema(settings: SchemaSettings) -> SchemaView;

    /// The model of this type's schema for a contextually optional position,
    /// under the given settings.
    spec fn spec_schema_optional(settings: SchemaSettings) -> SchemaView;

    /// Whether requests for this type's schema go through the registry and
    /// come back as a reference to a named definition.
    fn is_referenceable() -> (r: bool)
        ensures
            r == Self::spec_is_referenceable(),
    ;

    /// The canonical name of this type.
    fn schema_name() -> (r: String)
        ensures
            r@ == Self::spec_name(),
    ;

    /// The full schema of this type.
    fn json_schema(generator: &mut SchemaGenerator) -> (r: Schema)
        requires
            old(generator).wf(),
        ensures
            final(generator).wf(),
            final(generator).spec_settings() == old(generator).spec_settings(),
            r@ == Self::spec_schema(old(generator).spec_settings()),
            schema_view_wf(r@),
            forall|k: Seq<char>|
                #[trigger] assoc_get(old(generator).spec_definitions(), k) is Some ==> assoc_get(
                    final(generator).spec_definitions(),
                    k,
                ) == assoc_get(old(generator).spec_definitions(), k),
    ;

    /// The schema of this type when it stands in a contextually optional
    /// position inside an object's field list.
    fn json_schema_optional(generator: &mut SchemaGenerator) -> (r: Schema)
        requires
            old(generator).wf(),
        ensures
            final(generator).wf(),
            final(generator).spec_settings() == old(generator).spec_settings(),
            r@ == Self::spec_schema_optional(old(generator).spec_settings()),
            schema_view_wf(r@),
            forall|k: Seq<char>|
                #[trigger] assoc_get(old(generator).spec_definitions(), k) is Some ==> assoc_get(
                    final(generator).spec_definitions(),
                    k,
                ) == assoc_get(old(generator).spec_definitions(), k),
    ;
}

} // verus!

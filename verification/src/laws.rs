//! The laws of the optional/nullable policy, stated over the models that the
//! executable functions' contracts use and proved for every describable type
//! and every setting they speak of.

use vstd::prelude::*;

use crate::assoc::assoc_get;
use crate::generator::definition_path;
use crate::generator::spec_subschema_for;
use crate::json_schema::JsonSchema;
use crate::json_schema_impls::spec_unit_schema;
use crate::schema::InstanceType;
use crate::schema::SchemaObjectView;
use crate::schema::SchemaView;
use crate::schema::SingleOrVecView;
use crate::schema::SubschemaValidationView;
use crate::schema::json_bool;
use crate::schema::spec_into_object;
use crate::schema::spec_ref_schema;
use crate::settings::SchemaSettings;

verus! {

/// With both settings off, the schema for "optional `T`" is exactly the
/// inline-or-reference schema for `T`: no wrapping, no extension keys.
/// Absence of a value is then expressed purely by the containing object's
/// field not being listed as required.
pub proof fn lemma_option_plain<T: JsonSchema>(settings: SchemaSettings)
    requires
        !settings.option_nullable,
        !settings.option_add_null_type,
    ensures
        <Option<T> as JsonSchema>::spec_schema(settings) == spec_subschema_for::<T>(settings),
{
}

/// When `T`'s inline-or-reference schema is the trivial always-valid node and
/// null-type widening is on, the schema for "optional `T`" is that node,
/// unchanged: it already admits anything, including absence.
pub proof fn lemma_option_always_valid_unchanged<T: JsonSchema>(settings: SchemaSettings)
    requires
        !settings.option_nullable,
        settings.option_add_null_type,
        spec_subschema_for::<T>(settings) == SchemaView::Bool(true),
    ensures
        <Option<T> as JsonSchema>::spec_schema(settings) == SchemaView::Bool(true),
{
}

/// When `T`'s inline-or-reference schema is the trivial never-valid node and
/// null-type widening is on, the schema for "optional `T`" is the
/// unit/empty-type schema: exactly "no value".
pub proof fn lemma_option_never_valid_becomes_unit<T: JsonSchema>(settings: SchemaSettings)
    requires
        !settings.option_nullable,
        settings.option_add_null_type,
        spec_subschema_for::<T>(settings) == SchemaView::Bool(false),
    ensures
        <Option<T> as JsonSchema>::spec_schema(settings) == spec_unit_schema(),
{
}

/// When `T` is referenceable and null-type widening is on, the schema for
/// "optional `T`" never rewrites the reference: it has no instance-type
/// constraint and its composition block is exactly "any of [reference to `T`,
/// unit/empty-type schema]", in that order.
pub proof fn lemma_option_reference_wrapped<T: JsonSchema>(settings: SchemaSettings)
    requires
        !settings.option_nullable,
        settings.option_add_null_type,
        T::spec_is_referenceable(),
    ensures
        <Option<T> as JsonSchema>::spec_schema(settings) == SchemaView::Object(
            SchemaObjectView {
                subschemas: Some(
                    SubschemaValidationView {
                        any_of: Some(
                            seq![
                                spec_ref_schema(definition_path(T::spec_name())),
                                spec_unit_schema(),
                            ],
                        ),
                    },
                ),
                ..SchemaObjectView::empty()
            },
        ),
        <Option<T> as JsonSchema>::spec_schema(settings)->Object_0.instance_type is None,
{
}

/// When `T`'s inline-or-reference schema carries an explicit instance-type
/// constraint of one single non-null tag and null-type widening is on, the
/// schema for "optional `T`" carries the two-element ordered constraint of
/// that tag followed by the null tag.
pub proof fn lemma_option_single_type_widened<T: JsonSchema>(
    settings: SchemaSettings,
    tag: InstanceType,
)
    requires
        !settings.option_nullable,
        settings.option_add_null_type,
        spec_subschema_for::<T>(settings) is Object,
        spec_subschema_for::<T>(settings)->Object_0.instance_type == Some(
            SingleOrVecView::Single(tag),
        ),
        tag != InstanceType::Null,
    ensures
        <Option<T> as JsonSchema>::spec_schema(settings) is Object,
        <Option<T> as JsonSchema>::spec_schema(settings)->Object_0.instance_type == Some(
            SingleOrVecView::Multiple(seq![tag, InstanceType::Null]),
        ),
{
}

/// With the `nullable` setting on, the schema for "optional `T`" is always a
/// structured node — never a bare reference node — and always carries the
/// extension key `nullable` bound to the JSON value for true.
pub proof fn lemma_option_nullable_flag<T: JsonSchema>(settings: SchemaSettings)
    requires
        settings.option_nullable,
    ensures
        <Option<T> as JsonSchema>::spec_schema(settings) is Object,
        assoc_get(
            <Option<T> as JsonSchema>::spec_schema(settings)->Object_0.extensions,
            "nullable"@,
        ) == Some(json_bool(true)),
{
    let base = T::spec_schema(settings);
    let widened = if settings.option_add_null_type {
        crate::json_schema_impls::spec_add_null_type(base)
    } else {
        base
    };
    crate::assoc::lemma_assoc_insert_get_same(
        spec_into_object(widened).extensions,
        "nullable"@,
        json_bool(true),
    );
}

} // verus!

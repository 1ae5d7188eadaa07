//! Describable types and the optional/nullable policy: given a wrapped type,
//! produce the schema for "a value of `T`, or the absence of a value",
//! honoring the two settings, and composing correctly with reference schemas
//! and boolean-shorthand schemas.

use vstd::prelude::*;

use crate::assoc::assoc_insert;
use crate::generator::SchemaGenerator;
use crate::generator::spec_subschema_for;
use crate::json_schema::JsonSchema;
use crate::schema::InstanceType;
use crate::schema::ObjectValidation;
use crate::schema::ObjectValidationView;
use crate::schema::Schema;
use crate::schema::SchemaObject;
use crate::schema::SchemaObjectView;
use crate::schema::SchemaView;
use crate::schema::SingleOrVec;
use crate::schema::SingleOrVecView;
use crate::schema::SubschemaValidation;
use crate::schema::SubschemaValidationView;
use crate::schema::json_bool;
use crate::schema::schema_view_wf;
use crate::schema::spec_into_object;
use crate::schema::value_from_bool;
use crate::settings::SchemaSettings;

verus! {

/// The schema of the unit/empty type: exactly "no value".
pub open spec fn spec_unit_schema() -> SchemaView {
    SchemaView::Object(
        SchemaObjectView {
            instance_type: Some(SingleOrVecView::Single(InstanceType::Null)),
            ..SchemaObjectView::empty()
        },
    )
}

/// Widening an instance-type constraint by the null tag: a constraint that
/// already admits null stays as it is; a single other tag becomes the ordered
/// pair of that tag and null; a collection without null gets null appended.
pub open spec fn spec_with_null_type(o: SchemaObjectView) -> SchemaObjectView
    recommends
        o.instance_type is Some,
{
    let widened = match o.instance_type->0 {
        SingleOrVecView::Single(t) => if t == InstanceType::Null {
            SingleOrVecView::Single(t)
        } else {
            SingleOrVecView::Multiple(seq![t, InstanceType::Null])
        },
        SingleOrVecView::Multiple(ts) => if ts.contains(InstanceType::Null) {
            SingleOrVecView::Multiple(ts)
        } else {
            SingleOrVecView::Multiple(ts.push(InstanceType::Null))
        },
    };
    SchemaObjectView { instance_type: Some(widened), ..o }
}

/// Widening a schema so that it also admits "no value": the always-valid node
/// stays as it is; the never-valid node becomes the unit/empty-type schema; a
/// structured node with an explicit instance-type constraint has that
/// constraint widened by the null tag; anything else — a reference, or a
/// structured node without an instance-type constraint — is wrapped into
/// "any of [original schema, unit/empty-type schema]", untouched.
pub open spec fn spec_add_null_type(s: SchemaView) -> SchemaView {
    match s {
        SchemaView::Bool(b) => if b {
            SchemaView::Bool(true)
        } else {
            spec_unit_schema()
        },
        SchemaView::Object(o) => if o.instance_type is Some {
            SchemaView::Object(spec_with_null_type(o))
        } else {
            SchemaView::Object(
                SchemaObjectView {
                    subschemas: Some(
                        SubschemaValidationView {
                            any_of: Some(seq![SchemaView::Object(o), spec_unit_schema()]),
                        },
                    ),
                    ..SchemaObjectView::empty()
                },
            )
        },
    }
}

/// Marking a schema with the `nullable` extension keyword: the node is
/// converted to its structured form and the extension key `nullable` is bound
/// to the JSON value for `true`.
pub open spec fn spec_set_nullable(s: SchemaView) -> SchemaView {
    let o = spec_into_object(s);
    SchemaView::Object(
        SchemaObjectView { extensions: assoc_insert(o.extensions, "nullable"@, json_bool(true)), ..o },
    )
}

/// The optional/nullable policy: the schema for "a value of `T`, or the
/// absence of a value" under the given settings. With `option_nullable` the
/// wrapped type's own full schema is taken directly, never a reference; the
/// widening step of `option_add_null_type` then applies to it, and the
/// `nullable` extension flag is set after the widening.
pub open spec fn spec_option_schema<T: JsonSchema>(settings: SchemaSettings) -> SchemaView {
    let base = if settings.option_nullable {
        T::spec_schema(settings)
    } else {
        spec_subschema_for::<T>(settings)
    };
    let widened = if settings.option_add_null_type {
        spec_add_null_type(base)
    } else {
        base
    };
    if settings.option_nullable {
        spec_set_nullable(widened)
    } else {
        widened
    }
}

/// Clearing the required-field set of a structured node that carries an
/// object-validation block; any other node stays as it is.
pub open spec fn spec_clear_required(s: SchemaView) -> SchemaView {
    match s {
        SchemaView::Object(o) => if o.object is Some {
            SchemaView::Object(
                SchemaObjectView { object: Some(ObjectValidationView { required: Seq::empty() }), ..o },
            )
        } else {
            s
        },
        SchemaView::Bool(_) => s,
    }
}

/// Whether the collection of type tags holds the null tag.
fn contains_null(ts: &Vec<InstanceType>) -> (r: bool)
    ensures
        r == ts@.contains(InstanceType::Null),
{
    let n = ts.len();
    let mut i: usize = 0;
    while i < n
        invariant
            i <= n,
            n == ts.len(),
            forall|j: int| 0 <= j < i ==> ts@[j] != InstanceType::Null,
        decreases n - i,
    {
        if ts[i] == InstanceType::Null {
            return true;
        }
        i += 1;
    }
    false
}

/// Widen a structured node's instance-type constraint by the null tag,
/// without duplicating the tag when it is already present. The constraint
/// must be present: reaching this function without one is a logic defect in
/// the caller.
pub fn with_null_type(obj: SchemaObject) -> (r: SchemaObject)
    requires
        obj@.instance_type is Some,
    ensures
        r@ == spec_with_null_type(obj@),
{
    let ghost o0 = obj@;
    let SchemaObject { instance_type, reference, object, subschemas, extensions } = obj;
    let t = match instance_type {
        Some(t) => t,
        None => unreached(),
    };
    let widened = match t {
        SingleOrVec::Single(ty) => {
            if ty == InstanceType::Null {
                SingleOrVec::Single(ty)
            } else {
                let mut ts: Vec<InstanceType> = Vec::new();
                ts.push(ty);
                ts.push(InstanceType::Null);
                proof {
                    assert(ts@ =~= seq![ty, InstanceType::Null]);
                }
                SingleOrVec::Multiple(ts)
            }
        },
        SingleOrVec::Multiple(mut ts) => {
            if contains_null(&ts) {
                SingleOrVec::Multiple(ts)
            } else {
                ts.push(InstanceType::Null);
                SingleOrVec::Multiple(ts)
            }
        },
    };
    let r = SchemaObject { instance_type: Some(widened), reference, object, subschemas, extensions };
    proof {
        assert(r@ =~= spec_with_null_type(o0));
    }
    r
}

impl JsonSchema for () {
    open spec fn spec_name() -> Seq<char> {
        "Null"@
    }

    open spec fn spec_is_referenceable() -> bool {
        false
    }

    open spec fn spec_schema(settings: SchemaSettings) -> SchemaView {
        spec_unit_schema()
    }

    open spec fn spec_schema_optional(settings: SchemaSettings) -> SchemaView {
        spec_unit_schema()
    }

    fn is_referenceable() -> (r: bool) {
        false
    }

    fn schema_name() -> (r: String) {
        String::from_str("Null")
    }

    fn json_schema(generator: &mut SchemaGenerator) -> (r: Schema) {
        let r = Schema::Object(
            SchemaObject {
                instance_type: Some(SingleOrVec::Single(InstanceType::Null)),
                ..Default::default()
            },
        );
        proof {
            assert(r@ =~= spec_unit_schema());
        }
        r
    }

    fn json_schema_optional(generator: &mut SchemaGenerator) -> (r: Schema) {
        <() as JsonSchema>::json_schema(generator)
    }
}

impl JsonSchema for i32 {
    open spec fn spec_name() -> Seq<char> {
        "Integer"@
    }

    open spec fn spec_is_referenceable() -> bool {
        false
    }

    open spec fn spec_schema(settings: SchemaSettings) -> SchemaView {
        SchemaView::Object(
            SchemaObjectView {
                instance_type: Some(SingleOrVecView::Single(InstanceType::Integer)),
                ..SchemaObjectView::empty()
            },
        )
    }

    open spec fn spec_schema_optional(settings: SchemaSettings) -> SchemaView {
        Self::spec_schema(settings)
    }

    fn is_referenceable() -> (r: bool) {
        false
    }

    fn schema_name() -> (r: String) {
        String::from_str("Integer")
    }

    fn json_schema(generator: &mut SchemaGenerator) -> (r: Schema) {
        let r = Schema::Object(
            SchemaObject {
                instance_type: Some(SingleOrVec::Single(InstanceType::Integer)),
                ..Default::default()
            },
        );
        proof {
            assert(r@ =~= Self::spec_schema(old(generator).spec_settings()));
        }
        r
    }

    fn json_schema_optional(generator: &mut SchemaGenerator) -> (r: Schema) {
        <i32 as JsonSchema>::json_schema(generator)
    }
}

impl JsonSchema for serde_json::Value {
    open spec fn spec_name() -> Seq<char> {
        "AnyValue"@
    }

    open spec fn spec_is_referenceable() -> bool {
        false
    }

    open spec fn spec_schema(settings: SchemaSettings) -> SchemaView {
        SchemaView::Bool(true)
    }

    open spec fn spec_schema_optional(settings: SchemaSettings) -> SchemaView {
        SchemaView::Bool(true)
    }

    fn is_referenceable() -> (r: bool) {
        false
    }

    fn schema_name() -> (r: String) {
        String::from_str("AnyValue")
    }

    fn json_schema(generator: &mut SchemaGenerator) -> (r: Schema) {
        Schema::Bool(true)
    }

    fn json_schema_optional(generator: &mut SchemaGenerator) -> (r: Schema) {
        Schema::Bool(true)
    }
}

impl JsonSchema for core::convert::Infallible {
    open spec fn spec_name() -> Seq<char> {
        "Never"@
    }

    open spec fn spec_is_referenceable() -> bool {
        false
    }

    open spec fn spec_schema(settings: SchemaSettings) -> SchemaView {
        SchemaView::Bool(false)
    }

    open spec fn spec_schema_optional(settings: SchemaSettings) -> SchemaView {
        SchemaView::Bool(false)
    }

    fn is_referenceable() -> (r: bool) {
        false
    }

    fn schema_name() -> (r: String) {
        String::from_str("Never")
    }

    fn json_schema(generator: &mut SchemaGenerator) -> (r: Schema) {
        Schema::Bool(false)
    }

    fn json_schema_optional(generator: &mut SchemaGenerator) -> (r: Schema) {
        Schema::Bool(false)
    }
}

/// A minimal named object type, generated as a named, reusable definition and
/// referenced wherever it occurs inside another schema.
pub struct Foo {
    pub value: i32,
}

impl JsonSchema for Foo {
    open spec fn spec_name() -> Seq<char> {
        "Foo"@
    }

    open spec fn spec_is_referenceable() -> bool {
        true
    }

    open spec fn spec_schema(settings: SchemaSettings) -> SchemaView {
        SchemaView::Object(
            SchemaObjectView {
                instance_type: Some(SingleOrVecView::Single(InstanceType::Object)),
                object: Some(ObjectValidationView { required: seq!["value"@] }),
                ..SchemaObjectView::empty()
            },
        )
    }

    open spec fn spec_schema_optional(settings: SchemaSettings) -> SchemaView {
        Self::spec_schema(settings)
    }

    fn is_referenceable() -> (r: bool) {
        true
    }

    fn schema_name() -> (r: String) {
        String::from_str("Foo")
    }

    fn json_schema(generator: &mut SchemaGenerator) -> (r: Schema) {
        let mut required: Vec<String> = Vec::new();
        required.push(String::from_str("value"));
        let r = Schema::Object(
            SchemaObject {
                instance_type: Some(SingleOrVec::Single(InstanceType::Object)),
                object: Some(ObjectValidation { required }),
                ..Default::default()
            },
        );
        proof {
            assert(r@->Object_0.object->0.required =~= seq!["value"@]);
            assert(r@ =~= Self::spec_schema(old(generator).spec_settings()));
        }
        r
    }

    fn json_schema_optional(generator: &mut SchemaGenerator) -> (r: Schema) {
        <Foo as JsonSchema>::json_schema(generator)
    }
}

impl<T: ?Sized> JsonSchema for core::marker::PhantomData<T> {
    open spec fn spec_name() -> Seq<char> {
        <() as JsonSchema>::spec_name()
    }

    open spec fn spec_is_referenceable() -> bool {
        <() as JsonSchema>::spec_is_referenceable()
    }

    open spec fn spec_schema(settings: SchemaSettings) -> SchemaView {
        <() as JsonSchema>::spec_schema(settings)
    }

    open spec fn spec_schema_optional(settings: SchemaSettings) -> SchemaView {
        <() as JsonSchema>::spec_schema_optional(settings)
    }

    fn is_referenceable() -> (r: bool) {
        <() as JsonSchema>::is_referenceable()
    }

    fn schema_name() -> (r: String) {
        <() as JsonSchema>::schema_name()
    }

    fn json_schema(generator: &mut SchemaGenerator) -> (r: Schema) {
        <() as JsonSchema>::json_schema(generator)
    }

    fn json_schema_optional(generator: &mut SchemaGenerator) -> (r: Schema) {
        <() as JsonSchema>::json_schema_optional(generator)
    }
}

impl<T: JsonSchema> JsonSchema for Option<T> {
    open spec fn spec_name() -> Seq<char> {
        "Nullable_"@ + T::spec_name()
    }

    open spec fn spec_is_referenceable() -> bool {
        false
    }

    open spec fn spec_schema(settings: SchemaSettings) -> SchemaView {
        spec_option_schema::<T>(settings)
    }

    open spec fn spec_schema_optional(settings: SchemaSettings) -> SchemaView {
        spec_clear_required(T::spec_schema_optional(settings))
    }

    fn is_referenceable() -> (r: bool) {
        false
    }

    fn schema_name() -> (r: String) {
        let name = T::schema_name();
        String::from_str("Nullable_").concat(name.as_str())
    }

    fn json_schema(generator: &mut SchemaGenerator) -> (r: Schema) {
        let ghost s = old(generator).spec_settings();
        let ghost defs0 = old(generator).spec_definitions();
        let mut schema = if generator.settings().option_nullable {
            T::json_schema(generator)
        } else {
            generator.subschema_for::<T>()
        };
        let ghost base = schema@;
        let ghost defs1 = generator.spec_definitions();
        if generator.settings().option_add_null_type {
            schema = match schema {
                Schema::Bool(true) => Schema::Bool(true),
                Schema::Bool(false) => <() as JsonSchema>::json_schema(generator),
                Schema::Object(obj) => {
                    if obj.instance_type.is_some() {
                        Schema::Object(with_null_type(obj))
                    } else {
                        let ghost wrapped = obj@;
                        let unit_schema = <() as JsonSchema>::json_schema(generator);
                        let mut any_of: Vec<Schema> = Vec::new();
                        any_of.push(Schema::Object(obj));
                        any_of.push(unit_schema);
                        let r = Schema::Object(
                            SchemaObject {
                                subschemas: Some(SubschemaValidation { any_of: Some(any_of) }),
                                ..Default::default()
                            },
                        );
                        proof {
                            crate::schema::lemma_schema_seq_view_two(any_of@[0], any_of@[1]);
                            assert(any_of@ =~= seq![any_of@[0], any_of@[1]]);
                            assert(r@->Object_0.subschemas->0.any_of->0 =~= seq![
                                SchemaView::Object(wrapped),
                                spec_unit_schema(),
                            ]);
                            assert(r@ =~= spec_add_null_type(base));
                        }
                        r
                    }
                },
            };
            proof {
                assert(schema@ == spec_add_null_type(base));
            }
        }
        let ghost widened = schema@;
        let ghost defs2 = generator.spec_definitions();
        if generator.settings().option_nullable {
            let mut schema_obj: SchemaObject = schema.into_object();
            schema_obj.extensions.insert(String::from_str("nullable"), value_from_bool(true));
            schema = Schema::Object(schema_obj);
            proof {
                assert(schema@ =~= spec_set_nullable(widened));
            }
        }
        proof {
            assert(schema@ == Self::spec_schema(s));
            assert forall|k: Seq<char>| #[trigger] crate::assoc::assoc_get(defs0, k) is Some
                implies crate::assoc::assoc_get(generator.spec_definitions(), k)
                == crate::assoc::assoc_get(defs0, k) by {
                assert(crate::assoc::assoc_get(defs1, k) == crate::assoc::assoc_get(defs0, k));
                assert(crate::assoc::assoc_get(defs2, k) == crate::assoc::assoc_get(defs1, k));
            }
            assert(schema_view_wf(schema@));
        }
        schema
    }

    fn json_schema_optional(generator: &mut SchemaGenerator) -> (r: Schema) {
        let ghost s = old(generator).spec_settings();
        let schema = T::json_schema_optional(generator);
        match schema {
            Schema::Object(obj) => {
                let cleared = if obj.object.is_some() {
                    let ghost o0 = obj@;
                    let empty_required: Vec<String> = Vec::new();
                    let obj2 = SchemaObject {
                        object: Some(ObjectValidation { required: empty_required }),
                        ..obj
                    };
                    proof {
                        assert(obj2@.object->0.required =~= Seq::<Seq<char>>::empty());
                        assert(SchemaView::Object(obj2@) =~= spec_clear_required(
                            SchemaView::Object(o0),
                        ));
                    }
                    obj2
                } else {
                    obj
                };
                let r = Schema::Object(cleared);
                proof {
                    assert(r@ == Self::spec_schema_optional(s));
                    assert(schema_view_wf(r@));
                }
                r
            },
            other => {
                proof {
                    assert(other@ == Self::spec_schema_optional(s));
                }
                other
            },
        }
    }
}

} // verus!

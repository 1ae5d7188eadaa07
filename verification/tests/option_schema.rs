use schemars::generator::custom_schema_for;
use schemars::generator::custom_schema_object_for;
use schemars::generator::schema_for;
use schemars::generator::schema_object_for;
use schemars::generator::SchemaGenerator;
use schemars::json_schema::JsonSchema;
use schemars::json_schema_impls::with_null_type;
use schemars::json_schema_impls::Foo;
use schemars::schema::Extensions;
use schemars::schema::InstanceType;
use schemars::schema::ObjectValidation;
use schemars::schema::Schema;
use schemars::schema::SchemaObject;
use schemars::schema::SingleOrVec;
use schemars::settings::SchemaSettings;

#[test]
fn schema_for_option() {
    let schema = schema_object_for::<Option<i32>>();
    assert_eq!(
        schema.instance_type,
        Some(SingleOrVec::Multiple(vec![InstanceType::Integer, InstanceType::Null]))
    );
    assert_eq!(schema.extensions.get("nullable"), None);
    assert_eq!(schema.subschemas.is_none(), true);
}

#[test]
fn schema_for_option_with_ref() {
    let schema = schema_object_for::<Option<Foo>>();
    assert_eq!(schema.instance_type, None);
    assert_eq!(schema.extensions.get("nullable"), None);
    assert_eq!(schema.subschemas.is_some(), true);
    let any_of = schema.subschemas.unwrap().any_of.unwrap();
    assert_eq!(any_of.len(), 2);
    assert_eq!(any_of[0], Schema::new_ref("#/definitions/Foo".to_string()));
    assert_eq!(any_of[1], schema_for::<()>());
}

#[test]
fn schema_for_option_with_nullable() {
    let settings = SchemaSettings {
        option_nullable: true,
        option_add_null_type: false,
    };
    let schema = custom_schema_object_for::<Option<i32>>(settings);
    assert_eq!(schema.instance_type, Some(SingleOrVec::Single(InstanceType::Integer)));
    assert_eq!(schema.extensions.get("nullable"), Some(&serde_json::Value::Bool(true)));
    assert_eq!(schema.subschemas.is_none(), true);
}

#[test]
fn schema_for_option_with_both_settings_off() {
    let settings = SchemaSettings {
        option_nullable: false,
        option_add_null_type: false,
    };
    let schema = custom_schema_for::<Option<i32>>(settings);
    assert_eq!(schema, custom_schema_for::<i32>(settings));
    let ref_schema = custom_schema_for::<Option<Foo>>(settings);
    assert_eq!(ref_schema, Schema::new_ref("#/definitions/Foo".to_string()));
}

#[test]
fn schema_for_option_of_always_valid() {
    let schema = schema_for::<Option<serde_json::Value>>();
    assert_eq!(schema, Schema::Bool(true));
}

#[test]
fn schema_for_option_of_never_valid() {
    let schema = schema_for::<Option<std::convert::Infallible>>();
    assert_eq!(schema, schema_for::<()>());
}

#[test]
fn schema_for_option_with_nullable_and_null_type() {
    let settings = SchemaSettings {
        option_nullable: true,
        option_add_null_type: true,
    };
    let schema = custom_schema_object_for::<Option<Foo>>(settings);
    assert_eq!(schema.reference, None);
    assert_eq!(
        schema.instance_type,
        Some(SingleOrVec::Multiple(vec![InstanceType::Object, InstanceType::Null]))
    );
    assert_eq!(schema.extensions.get("nullable"), Some(&serde_json::Value::Bool(true)));
}

#[test]
fn schema_for_nested_option() {
    assert_eq!(schema_for::<Option<Option<i32>>>(), schema_for::<Option<i32>>());
}

#[test]
fn repeated_requests_yield_equal_schemas() {
    let mut generator = SchemaGenerator::new(SchemaSettings::default());
    let first = <Option<Foo> as JsonSchema>::json_schema(&mut generator);
    let second = <Option<Foo> as JsonSchema>::json_schema(&mut generator);
    assert_eq!(first, second);
    assert_eq!(generator.definitions_len(), 1);
}

#[test]
fn subschema_requests_do_not_duplicate_definitions() {
    let mut generator = SchemaGenerator::new(SchemaSettings::default());
    let first = generator.subschema_for::<Foo>();
    let second = generator.subschema_for::<Foo>();
    assert_eq!(first, second);
    assert_eq!(first, Schema::new_ref("#/definitions/Foo".to_string()));
    assert_eq!(generator.definitions_len(), 1);
}

#[test]
fn registry_holds_definition_after_request() {
    let mut generator = SchemaGenerator::new(SchemaSettings::default());
    generator.subschema_for::<Foo>();
    let mut fresh = SchemaGenerator::new(SchemaSettings::default());
    let full = <Foo as JsonSchema>::json_schema(&mut fresh);
    assert_eq!(generator.definition_get("Foo"), Some(&full));
    assert_eq!(generator.definition_get("Bar"), None);
}

#[test]
fn optional_field_schema_clears_required() {
    let mut generator = SchemaGenerator::new(SchemaSettings::default());
    let full = <Foo as JsonSchema>::json_schema(&mut generator);
    match full {
        Schema::Object(o) => {
            assert_eq!(o.object.unwrap().required, vec!["value".to_string()]);
        }
        _ => panic!("expected a structured node"),
    }
    let optional = <Option<Foo> as JsonSchema>::json_schema_optional(&mut generator);
    match optional {
        Schema::Object(o) => {
            assert_eq!(o.object.unwrap().required, Vec::<String>::new());
        }
        _ => panic!("expected a structured node"),
    }
}

#[test]
fn optional_wrapper_canonical_name() {
    assert_eq!(<Option<Foo> as JsonSchema>::schema_name(), "Nullable_Foo");
    assert_eq!(<Option<Option<i32>> as JsonSchema>::schema_name(), "Nullable_Nullable_Integer");
}

#[test]
fn with_null_type_widens_single_tag() {
    let mut obj = SchemaObject::default();
    obj.instance_type = Some(SingleOrVec::Single(InstanceType::Integer));
    let widened = with_null_type(obj);
    assert_eq!(
        widened.instance_type,
        Some(SingleOrVec::Multiple(vec![InstanceType::Integer, InstanceType::Null]))
    );
}

#[test]
fn with_null_type_keeps_single_null() {
    let mut obj = SchemaObject::default();
    obj.instance_type = Some(SingleOrVec::Single(InstanceType::Null));
    let widened = with_null_type(obj);
    assert_eq!(widened.instance_type, Some(SingleOrVec::Single(InstanceType::Null)));
}

#[test]
fn with_null_type_appends_to_collection() {
    let mut obj = SchemaObject::default();
    obj.instance_type = Some(SingleOrVec::Multiple(vec![InstanceType::Boolean]));
    let widened = with_null_type(obj);
    assert_eq!(
        widened.instance_type,
        Some(SingleOrVec::Multiple(vec![InstanceType::Boolean, InstanceType::Null]))
    );
}

#[test]
fn with_null_type_does_not_duplicate_null() {
    let mut obj = SchemaObject::default();
    obj.instance_type = Some(SingleOrVec::Multiple(vec![InstanceType::Text, InstanceType::Null]));
    let widened = with_null_type(obj);
    assert_eq!(
        widened.instance_type,
        Some(SingleOrVec::Multiple(vec![InstanceType::Text, InstanceType::Null]))
    );
}

#[test]
fn with_null_type_keeps_other_keywords() {
    let mut obj = SchemaObject::default();
    obj.instance_type = Some(SingleOrVec::Single(InstanceType::Object));
    obj.object = Some(ObjectValidation { required: vec!["value".to_string()] });
    let widened = with_null_type(obj);
    assert_eq!(widened.object, Some(ObjectValidation { required: vec!["value".to_string()] }));
    assert_eq!(widened.reference, None);
}

#[test]
fn boolean_shorthand_conversions() {
    assert_eq!(Schema::Bool(true).into_object(), SchemaObject::default());
    let never = Schema::Bool(false).into_object();
    assert_eq!(never.instance_type, None);
    assert_eq!(never.subschemas.unwrap().any_of.unwrap(), vec![Schema::Bool(false)]);
    let object = SchemaObject::default();
    assert_eq!(Schema::Object(object), Schema::Object(SchemaObject::default()));
}

#[test]
fn extensions_insert_replaces_and_get_finds() {
    let mut extensions = Extensions::new();
    assert!(extensions.get("nullable").is_none());
    extensions.insert("nullable".to_string(), serde_json::Value::Bool(false));
    extensions.insert("nullable".to_string(), serde_json::Value::Bool(true));
    assert_eq!(extensions.get("nullable"), Some(&serde_json::Value::Bool(true)));
    assert_eq!(extensions.get("deprecated"), None);
}

#[test]
fn phantom_data_schema_is_unit_schema() {
    let schema = schema_for::<std::marker::PhantomData<i32>>();
    assert_eq!(schema, schema_for::<()>());
    assert_eq!(<std::marker::PhantomData<i32> as JsonSchema>::schema_name(), "Null");
}

//! The schema generator: process-scoped context holding the active settings
//! and a registry mapping type names to previously generated named schemas.

use vstd::prelude::*;

use crate::assoc::assoc_get;
use crate::assoc::assoc_insert;
use crate::assoc::unique_keys;
use crate::json_schema::JsonSchema;
use crate::schema::Schema;
use crate::schema::SchemaObject;
use crate::schema::SchemaView;
use crate::schema::spec_ref_schema;
use crate::settings::SchemaSettings;

verus! {

/// The path under which the definition registered under `name` is reachable.
pub open spec fn definition_path(name: Seq<char>) -> Seq<char> {
    "#/definitions/"@ + name
}

/// The schema a subschema request for `T` produces: a reference to `T`'s
/// named definition when `T` is referenceable, otherwise `T`'s inline schema.
pub open spec fn spec_subschema_for<T: JsonSchema>(settings: SchemaSettings) -> SchemaView {
    if T::spec_is_referenceable() {
        spec_ref_schema(definition_path(T::spec_name()))
    } else {
        T::spec_schema(settings)
    }
}

/// The generation context of one run: the settings, read by every step, and
/// the registry of named definitions, grown as referenceable types are
/// requested. The registry never holds two definitions under one name.
pub struct SchemaGenerator {
    settings: SchemaSettings,
    definitions: Vec<(String, Schema)>,
}

impl SchemaGenerator {
    /// The active settings.
    pub closed spec fn spec_settings(self) -> SchemaSettings {
        self.settings
    }

    /// The model of the registry: name/definition pairs in insertion order.
    pub closed spec fn spec_definitions(self) -> Seq<(Seq<char>, SchemaView)> {
        Seq::new(
            self.definitions@.len(),
            |i: int| (self.definitions@[i].0@, self.definitions@[i].1@),
        )
    }

    /// The registry holds no duplicate names.
    pub open spec fn wf(self) -> bool {
        unique_keys(self.spec_definitions())
    }

    /// A fresh generation run: the given settings, an empty registry.
    pub fn new(settings: SchemaSettings) -> (r: SchemaGenerator)
        ensures
            r.spec_settings() == settings,
            r.spec_definitions() == Seq::<(Seq<char>, SchemaView)>::empty(),
            r.wf(),
    {
        let r = SchemaGenerator { settings, definitions: Vec::new() };
        proof {
            assert(r.spec_definitions() =~= Seq::<(Seq<char>, SchemaView)>::empty());
        }
        r
    }

    /// Read-only access to the active settings.
    pub fn settings(&self) -> (r: &SchemaSettings)
        ensures
            *r == self.spec_settings(),
    {
        &self.settings
    }

    /// How many named definitions the registry holds.
    pub fn definitions_len(&self) -> (r: usize)
        ensures
            r == self.spec_definitions().len(),
    {
        self.definitions.len()
    }

    /// The definition registered under `name`, when one is present.
    pub fn definition_get(&self, name: &str) -> (r: Option<&Schema>)
        ensures
            match r {
                Some(s) => assoc_get(self.spec_definitions(), name@) == Some(s@),
                None => assoc_get(self.spec_definitions(), name@) is None,
            },
    {
        let name_owned: String = name.to_owned();
        let n = self.definitions.len();
        let mut i: usize = 0;
        while i < n
            invariant
                n == self.definitions.len(),
                i <= n,
                name_owned@ == name@,
                forall|j: int| 0 <= j < i ==> self.spec_definitions()[j].0 != name@,
            decreases n - i,
        {
            if self.definitions[i].0 == name_owned {
                proof {
                    crate::assoc::lemma_assoc_get_found(self.spec_definitions(), name@, i as int);
                }
                return Some(&self.definitions[i].1);
            }
            i += 1;
        }
        proof {
            crate::assoc::lemma_assoc_get_absent(self.spec_definitions(), name@);
        }
        None
    }

    /// Register `schema` under `name`, replacing a definition already
    /// registered under that name.
    fn insert_definition(&mut self, name: String, schema: Schema)
        ensures
            final(self).spec_definitions() == assoc_insert(
                old(self).spec_definitions(),
                name@,
                schema@,
            ),
            final(self).spec_settings() == old(self).spec_settings(),
    {
        let n = self.definitions.len();
        let mut i: usize = 0;
        while i < n
            invariant
                *self == *old(self),
                n == self.definitions.len(),
                i <= n,
                forall|j: int| 0 <= j < i ==> self.spec_definitions()[j].0 != name@,
            decreases n - i,
        {
            if self.definitions[i].0 == name {
                proof {
                    crate::assoc::lemma_assoc_insert_found(
                        old(self).spec_definitions(),
                        name@,
                        schema@,
                        i as int,
                    );
                }
                self.definitions.set(i, (name, schema));
                proof {
                    assert(self.spec_definitions() =~= old(self).spec_definitions().update(
                        i as int,
                        (name@, schema@),
                    ));
                }
                return ;
            }
            i += 1;
        }
        proof {
            crate::assoc::lemma_assoc_insert_absent(old(self).spec_definitions(), name@, schema@);
        }
        self.definitions.push((name, schema));
        proof {
            assert(self.spec_definitions() =~= old(self).spec_definitions().push(
                (name@, schema@),
            ));
        }
    }

    /// The schema to use for `T` inside another schema: a reference to `T`'s
    /// named definition when `T` is referenceable, otherwise `T`'s inline
    /// schema. The first request for a referenceable `T` registers `T`'s
    /// definition; the name is registered before the body is expanded, so a
    /// self-referential type comes back as a reference instead of recursing
    /// without bound. Requesting the same `T` twice yields equal output and
    /// does not duplicate the registry entry.
    pub fn subschema_for<T: JsonSchema>(&mut self) -> (r: Schema)
        requires
            old(self).wf(),
        ensures
            final(self).wf(),
            final(self).spec_settings() == old(self).spec_settings(),
            r@ == spec_subschema_for::<T>(old(self).spec_settings()),
            crate::schema::schema_view_wf(r@),
            forall|k: Seq<char>|
                #[trigger] assoc_get(old(self).spec_definitions(), k) is Some ==> assoc_get(
                    final(self).spec_definitions(),
                    k,
                ) == assoc_get(old(self).spec_definitions(), k),
            T::spec_is_referenceable() ==> assoc_get(
                final(self).spec_definitions(),
                T::spec_name(),
            ) is Some,
            T::spec_is_referenceable() && assoc_get(
                old(self).spec_definitions(),
                T::spec_name(),
            ) is None ==> assoc_get(final(self).spec_definitions(), T::spec_name()) == Some(
                T::spec_schema(old(self).spec_settings()),
            ),
    {
        if !T::is_referenceable() {
            return T::json_schema(self);
        }
        let name = T::schema_name();
        let registered = match self.definition_get(name.as_str()) {
            Some(_) => true,
            None => false,
        };
        if !registered {
            // Break recursion: hold the name with a placeholder before the
            // body is expanded, then replace the placeholder by the real
            // definition.
            let ghost defs0 = self.spec_definitions();
            let placeholder_name = name.clone();
            self.insert_definition(placeholder_name, Schema::Bool(false));
            proof {
                crate::assoc::lemma_assoc_insert_unique(defs0, name@, Schema::Bool(false)@);
                assert forall|k: Seq<char>|
                    #[trigger] assoc_get(defs0, k) is Some implies assoc_get(
                    self.spec_definitions(),
                    k,
                ) == assoc_get(defs0, k) by {
                    if k != name@ {
                        crate::assoc::lemma_assoc_insert_get_other(
                            defs0,
                            name@,
                            Schema::Bool(false)@,
                            k,
                        );
                    }
                }
            }
            let ghost defs1 = self.spec_definitions();
            let schema = T::json_schema(self);
            let ghost defs2 = self.spec_definitions();
            let final_name = name.clone();
            self.insert_definition(final_name, schema);
            proof {
                crate::assoc::lemma_assoc_insert_unique(defs2, name@, schema@);
                crate::assoc::lemma_assoc_insert_get_same(defs2, name@, schema@);
                assert forall|k: Seq<char>|
                    #[trigger] assoc_get(old(self).spec_definitions(), k) is Some implies
                    assoc_get(self.spec_definitions(), k) == assoc_get(
                    old(self).spec_definitions(),
                    k,
                ) by {
                    if k != name@ {
                        crate::assoc::lemma_assoc_insert_get_other(defs2, name@, schema@, k);
                    }
                }
            }
        }
        let path = String::from_str("#/definitions/").concat(name.as_str());
        Schema::new_ref(path)
    }
}

/// The full schema for `T` in a fresh run with the given settings.
pub fn custom_schema_for<T: JsonSchema>(settings: SchemaSettings) -> (r: Schema)
    ensures
        r@ == T::spec_schema(settings),
        crate::schema::schema_view_wf(r@),
{
    let mut generator = SchemaGenerator::new(settings);
    T::json_schema(&mut generator)
}

/// The full schema for `T` in a fresh run with the default settings.
pub fn schema_for<T: JsonSchema>() -> (r: Schema)
    ensures
        r@ == T::spec_schema(SchemaSettings::spec_default()),
        crate::schema::schema_view_wf(r@),
{
    custom_schema_for::<T>(Default::default())
}

/// The structured form of the full schema for `T` in a fresh run with the
/// given settings.
pub fn custom_schema_object_for<T: JsonSchema>(settings: SchemaSettings) -> (r: SchemaObject)
    ensures
        r@ == crate::schema::spec_into_object(T::spec_schema(settings)),
{
    custom_schema_for::<T>(settings).into_object()
}

/// The structured form of the full schema for `T` in a fresh run with the
/// default settings.
pub fn schema_object_for<T: JsonSchema>() -> (r: SchemaObject)
    ensures
        r@ == crate::schema::spec_into_object(
            T::spec_schema(SchemaSettings::spec_default()),
        ),
{
    custom_schema_object_for::<T>(Default::default())
}

} // verus!

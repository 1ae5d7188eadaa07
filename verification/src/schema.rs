//! The schema document model: an in-memory representation of a schema node,
//! either a boolean shorthand (always valid / never valid) or a structured
//! object carrying instance-type constraints, object-validation metadata,
//! subschema composition, and a free-form extension map for vendor keywords.

use vstd::prelude::*;

use crate::assoc::assoc_get;
use crate::assoc::assoc_insert;

verus! {

/// `serde_json::Value` carries the free-form payload of vendor extension
/// keywords; the model stores such values without inspecting them.
#[verifier::external_type_specification]
#[verifier::external_body]
pub struct ExValue(serde_json::Value);

/// The JSON value that stands for the boolean `b`.
pub uninterp spec fn json_bool(b: bool) -> serde_json::Value;

/// Relies on `serde_json::Value::Bool`: wrapping a boolean as a JSON value
/// depends on the boolean alone.
#[verifier::external_body]
pub fn value_from_bool(b: bool) -> (r: serde_json::Value)
    ensures
        r == json_bool(b),
{
    serde_json::Value::Bool(b)
}

/// The basic kinds of value a schema node can accept. The null tag is one
/// tag among the others.
#[derive(Clone, Copy, Debug, PartialEq, Eq, Structural)]
pub enum InstanceType {
    Null,
    Boolean,
    Object,
    Array,
    Number,
    /// The JSON string type.
    Text,
    Integer,
}

/// An instance-type constraint: a single type tag, or an ordered,
/// duplicate-free collection of type tags.
#[derive(Clone, Debug, PartialEq, Eq)]
pub enum SingleOrVec {
    Single(InstanceType),
    Multiple(Vec<InstanceType>),
}

/// The mathematical model of an instance-type constraint.
pub enum SingleOrVecView {
    Single(InstanceType),
    Multiple(Seq<InstanceType>),
}

impl View for SingleOrVec {
    type V = SingleOrVecView;

    open spec fn view(&self) -> SingleOrVecView {
        match self {
            SingleOrVec::Single(t) => SingleOrVecView::Single(*t),
            SingleOrVec::Multiple(ts) => SingleOrVecView::Multiple(ts@),
        }
    }
}

/// Object-validation metadata: the set of field names that must be present
/// for a value to validate.
#[derive(Clone, Debug, PartialEq, Eq)]
pub struct ObjectValidation {
    /// The names of the required fields, in insertion order, without
    /// duplicates.
    pub required: Vec<String>,
}

/// The mathematical model of an object-validation block.
pub struct ObjectValidationView {
    pub required: Seq<Seq<char>>,
}

impl View for ObjectValidation {
    type V = ObjectValidationView;

    open spec fn view(&self) -> ObjectValidationView {
        ObjectValidationView {
            required: Seq::new(self.required@.len(), |i: int| self.required@[i]@),
        }
    }
}

/// Subschema-composition metadata: a node carrying an `anyOf` list matches a
/// value that matches at least one of the listed subschemas. The list, when
/// present, holds at least one element.
#[derive(Debug, PartialEq)]
pub struct SubschemaValidation {
    pub any_of: Option<Vec<Schema>>,
}

/// The mathematical model of a subschema-composition block.
pub struct SubschemaValidationView {
    pub any_of: Option<Seq<SchemaView>>,
}

/// The model of a list of schema nodes, element by element.
pub open spec fn schema_seq_view(v: Seq<Schema>) -> Seq<SchemaView>
    decreases v,
{
    if v.len() == 0 {
        Seq::empty()
    } else {
        seq![schema_view_of(v[0])] + schema_seq_view(v.drop_first())
    }
}

/// The model of a subschema-composition block.
pub open spec fn subschemas_view_of(sub: SubschemaValidation) -> SubschemaValidationView
    decreases sub,
{
    SubschemaValidationView {
        any_of: match sub.any_of {
            Some(v) => Some(schema_seq_view(v@)),
            None => None,
        },
    }
}

impl View for SubschemaValidation {
    type V = SubschemaValidationView;

    open spec fn view(&self) -> SubschemaValidationView {
        subschemas_view_of(*self)
    }
}

/// The extension mapping of a schema node: vendor keywords, from string keys
/// to free-form JSON values. Insertion replaces the value bound to a key
/// that is already present.
#[derive(Debug, PartialEq)]
pub struct Extensions {
    entries: Vec<(String, serde_json::Value)>,
}

impl View for Extensions {
    type V = Seq<(Seq<char>, serde_json::Value)>;

    closed spec fn view(&self) -> Seq<(Seq<char>, serde_json::Value)> {
        Seq::new(self.entries@.len(), |i: int| (self.entries@[i].0@, self.entries@[i].1))
    }
}

impl Extensions {
    /// An empty extension mapping.
    pub fn new() -> (r: Extensions)
        ensures
            r@ == Seq::<(Seq<char>, serde_json::Value)>::empty(),
    {
        let r = Extensions { entries: Vec::new() };
        proof {
            assert(r@ =~= Seq::<(Seq<char>, serde_json::Value)>::empty());
        }
        r
    }

    /// Bind `key` to `value`, replacing the value of a key already present.
    pub fn insert(&mut self, key: String, value: serde_json::Value)
        ensures
            final(self)@ == assoc_insert(old(self)@, key@, value),
    {
        let n = self.entries.len();
        let mut i: usize = 0;
        while i < n
            invariant
                *self == *old(self),
                n == self.entries.len(),
                i <= n,
                forall|j: int| 0 <= j < i ==> self@[j].0 != key@,
            decreases n - i,
        {
            if self.entries[i].0 == key {
                proof {
                    crate::assoc::lemma_assoc_insert_found(old(self)@, key@, value, i as int);
                }
                self.entries.set(i, (key, value));
                proof {
                    assert(self@ =~= old(self)@.update(i as int, (key@, value)));
                }
                return ;
            }
            i += 1;
        }
        proof {
            crate::assoc::lemma_assoc_insert_absent(old(self)@, key@, value);
        }
        self.entries.push((key, value));
        proof {
            assert(self@ =~= old(self)@.push((key@, value)));
        }
    }

    /// The value bound to `key`, when one is present.
    pub fn get(&self, key: &str) -> (r: Option<&serde_json::Value>)
        ensures
            match r {
                Some(v) => assoc_get(self@, key@) == Some(*v),
                None => assoc_get(self@, key@) is None,
            },
    {
        let key_owned: String = key.to_owned();
        let n = self.entries.len();
        let mut i: usize = 0;
        while i < n
            invariant
                n == self.entries.len(),
                i <= n,
                key_owned@ == key@,
                forall|j: int| 0 <= j < i ==> self@[j].0 != key@,
            decreases n - i,
        {
            if self.entries[i].0 == key_owned {
                proof {
                    crate::assoc::lemma_assoc_get_found(self@, key@, i as int);
                }
                return Some(&self.entries[i].1);
            }
            i += 1;
        }
        proof {
            crate::assoc::lemma_assoc_get_absent(self@, key@);
        }
        None
    }
}

/// A structured schema node.
#[derive(Debug, PartialEq)]
pub struct SchemaObject {
    /// The instance-type constraint; nothing means unconstrained.
    pub instance_type: Option<SingleOrVec>,
    /// The path of the named definition this node points to, when the node is
    /// a reference. A reference is opaque: it is composed into `anyOf` lists
    /// or returned directly, never dereferenced or mutated through.
    pub reference: Option<String>,
    /// Object-validation metadata.
    pub object: Option<ObjectValidation>,
    /// Subschema-composition metadata.
    pub subschemas: Option<SubschemaValidation>,
    /// Vendor extension keywords.
    pub extensions: Extensions,
}

/// The mathematical model of a structured schema node.
pub struct SchemaObjectView {
    pub instance_type: Option<SingleOrVecView>,
    pub reference: Option<Seq<char>>,
    pub object: Option<ObjectValidationView>,
    pub subschemas: Option<SubschemaValidationView>,
    pub extensions: Seq<(Seq<char>, serde_json::Value)>,
}

/// The model of a structured schema node.
pub open spec fn schema_object_view_of(o: SchemaObject) -> SchemaObjectView
    decreases o,
{
    SchemaObjectView {
        instance_type: match o.instance_type {
            Some(t) => Some(t@),
            None => None,
        },
        reference: match o.reference {
            Some(r) => Some(r@),
            None => None,
        },
        object: match o.object {
            Some(v) => Some(v@),
            None => None,
        },
        subschemas: match o.subschemas {
            Some(sub) => Some(subschemas_view_of(sub)),
            None => None,
        },
        extensions: o.extensions@,
    }
}

impl View for SchemaObject {
    type V = SchemaObjectView;

    open spec fn view(&self) -> SchemaObjectView {
        schema_object_view_of(*self)
    }
}

/// A schema node: a boolean shorthand (`Bool(true)` is always valid,
/// `Bool(false)` never valid) or a structured object.
#[derive(Debug, PartialEq)]
pub enum Schema {
    Bool(bool),
    Object(SchemaObject),
}

/// The mathematical model of a schema node.
pub enum SchemaView {
    Bool(bool),
    Object(SchemaObjectView),
}

/// The model of a schema node.
pub open spec fn schema_view_of(s: Schema) -> SchemaView
    decreases s,
{
    match s {
        Schema::Bool(b) => SchemaView::Bool(b),
        Schema::Object(o) => SchemaView::Object(schema_object_view_of(o)),
    }
}

impl View for Schema {
    type V = SchemaView;

    open spec fn view(&self) -> SchemaView {
        schema_view_of(*self)
    }
}

impl SchemaObjectView {
    /// The unconstrained structured node: no keywords at all.
    pub open spec fn empty() -> SchemaObjectView {
        SchemaObjectView {
            instance_type: None,
            reference: None,
            object: None,
            subschemas: None,
            extensions: Seq::empty(),
        }
    }
}

/// The structured form of the never-valid node: its only content is a
/// subschema composition that cannot be matched.
pub open spec fn spec_never_object() -> SchemaObjectView {
    SchemaObjectView {
        subschemas: Some(
            SubschemaValidationView { any_of: Some(seq![SchemaView::Bool(false)]) },
        ),
        ..SchemaObjectView::empty()
    }
}

/// The structured node a schema converts to: a structured node stays itself,
/// the always-valid shorthand becomes the unconstrained node, and the
/// never-valid shorthand becomes the node whose only content is a
/// composition that cannot be matched. No information that matters is lost
/// either way.
pub open spec fn spec_into_object(s: SchemaView) -> SchemaObjectView {
    match s {
        SchemaView::Object(o) => o,
        SchemaView::Bool(b) => if b {
            SchemaObjectView::empty()
        } else {
            spec_never_object()
        },
    }
}

/// A reference node pointing at the definition reachable under `path`.
pub open spec fn spec_ref_schema(path: Seq<char>) -> SchemaView {
    SchemaView::Object(SchemaObjectView { reference: Some(path), ..SchemaObjectView::empty() })
}

/// The model of a two-element list of schema nodes, element by element.
pub proof fn lemma_schema_seq_view_two(a: Schema, b: Schema)
    ensures
        schema_seq_view(seq![a, b]) == seq![a@, b@],
{
    let v = seq![a, b];
    assert(v.drop_first() =~= seq![b]);
    assert(seq![b].drop_first() =~= Seq::<Schema>::empty());
    assert(schema_seq_view(Seq::<Schema>::empty()) =~= Seq::<SchemaView>::empty());
    assert(seq![b][0] == b);
    assert(schema_seq_view(seq![b]) =~= seq![b@]);
    assert(v[0] == a);
    assert(schema_seq_view(v) =~= seq![a@, b@]);
}

/// Well-formedness of a schema node: every `anyOf` list that is present
/// holds at least one element, recursively.
pub open spec fn schema_view_wf(s: SchemaView) -> bool
    decreases s,
{
    match s {
        SchemaView::Bool(_) => true,
        SchemaView::Object(o) => match o.subschemas {
            Some(sub) => match sub.any_of {
                Some(list) => list.len() >= 1 && forall|i: int|
                    0 <= i < list.len() ==> schema_view_wf(#[trigger] list[i]),
                None => true,
            },
            None => true,
        },
    }
}

impl Default for SchemaObject {
    /// The unconstrained structured node.
    fn default() -> (r: SchemaObject)
        ensures
            r@ == SchemaObjectView::empty(),
    {
        let r = SchemaObject {
            instance_type: None,
            reference: None,
            object: None,
            subschemas: None,
            extensions: Extensions::new(),
        };
        proof {
            assert(r@ =~= SchemaObjectView::empty());
        }
        r
    }
}

impl Schema {
    /// A reference to the definition reachable under `reference`; the rest of
    /// the system composes such a node but never inspects its target.
    pub fn new_ref(reference: String) -> (r: Schema)
        ensures
            r@ == spec_ref_schema(reference@),
            schema_view_wf(r@),
    {
        let r = Schema::Object(
            SchemaObject { reference: Some(reference), ..Default::default() },
        );
        proof {
            assert(r@ =~= spec_ref_schema(reference@));
        }
        r
    }

    /// Convert this node to its structured form.
    pub fn into_object(self) -> (r: SchemaObject)
        ensures
            r@ == spec_into_object(self@),
    {
        match self {
            Schema::Object(o) => o,
            Schema::Bool(true) => Default::default(),
            Schema::Bool(false) => {
                let mut any_of: Vec<Schema> = Vec::new();
                any_of.push(Schema::Bool(false));
                let r = SchemaObject {
                    subschemas: Some(SubschemaValidation { any_of: Some(any_of) }),
                    ..Default::default()
                };
                proof {
                    assert(r@.subschemas->0.any_of->0 =~= seq![SchemaView::Bool(false)]);
                    assert(r@ =~= spec_never_object());
                }
                r
            },
        }
    }
}

} // verus!

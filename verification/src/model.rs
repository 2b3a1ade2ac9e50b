//! A model of a schema: its fields, indexes and primary key, and the
//! questions that can be asked of them.

use crate::field::{Field, FieldKind, FieldView, RelationField, ScalarField, ScalarType};
use crate::index::{
    IndexDefinition, IndexDefinitionView, PrimaryKeyDefinition, PrimaryKeyDefinitionView,
};
use crate::seqs::{
    any, first, first_position, is_first, lemma_first_none, lemma_first_position, opt_view, views,
};
use crate::text::{opt_str_clone, opt_str_eq, str_eq};
use vstd::prelude::*;
use vstd::std_specs::cmp::PartialEqSpecImpl;

verus! {

/// Fields called `name`.
pub open spec fn named(name: Seq<char>) -> spec_fn(FieldView) -> bool {
    |f: FieldView| f.name == name
}

/// Scalar fields.
pub open spec fn scalar() -> spec_fn(FieldView) -> bool {
    |f: FieldView| f.kind == FieldKind::Scalar
}

/// Relation fields.
pub open spec fn relation() -> spec_fn(FieldView) -> bool {
    |f: FieldView| f.kind == FieldKind::Relation
}

/// Scalar fields called `name`.
pub open spec fn scalar_named(name: Seq<char>) -> spec_fn(FieldView) -> bool {
    |f: FieldView| f.kind == FieldKind::Scalar && f.name == name
}

/// Relation fields called `name`.
pub open spec fn relation_named(name: Seq<char>) -> spec_fn(FieldView) -> bool {
    |f: FieldView| f.kind == FieldKind::Relation && f.name == name
}

/// Scalar fields that the database calls `db_name`.
pub open spec fn scalar_mapped_to(db_name: Seq<char>) -> spec_fn(FieldView) -> bool {
    |f: FieldView| f.kind == FieldKind::Scalar && f.database_name == Some(db_name)
}

/// Unique indexes on the field `name` alone.
pub open spec fn unique_on(name: Seq<char>) -> spec_fn(IndexDefinitionView) -> bool {
    |i: IndexDefinitionView| i.is_unique_on(name)
}

/// Unique indexes on the field `name` alone that were declared on the field.
pub open spec fn unique_on_field_itself(name: Seq<char>) -> spec_fn(IndexDefinitionView) -> bool {
    |i: IndexDefinitionView| i.is_unique_on(name) && i.defined_on_field
}

/// Indexes whose first field is the field `name`.
pub open spec fn leading_with(name: Seq<char>) -> spec_fn(IndexDefinitionView) -> bool {
    |i: IndexDefinitionView| i.leads_with(name)
}

/// A model of a schema.
#[derive(Debug)]
pub struct Model {
    /// Name of the model.
    pub name: String,
    /// Fields of the model.
    pub fields: Vec<Field>,
    /// Comments associated with this model.
    pub documentation: Option<String>,
    /// The name of this model in the database.
    pub database_name: Option<String>,
    /// The indexes of the model.
    pub indices: Vec<IndexDefinition>,
    /// The primary key of the model.
    pub primary_key: Option<PrimaryKeyDefinition>,
    /// Indicates if this model is generated.
    pub is_generated: bool,
    /// Indicates if this model has to be commented out.
    pub is_commented_out: bool,
    /// Indicates if this model has to be ignored by the client.
    pub is_ignored: bool,
}

/// The mathematical content of a [`Model`].
pub ghost struct ModelView {
    pub name: Seq<char>,
    pub fields: Seq<FieldView>,
    pub documentation: Option<Seq<char>>,
    pub database_name: Option<Seq<char>>,
    pub indices: Seq<IndexDefinitionView>,
    pub primary_key: Option<PrimaryKeyDefinitionView>,
    pub is_generated: bool,
    pub is_commented_out: bool,
    pub is_ignored: bool,
}

impl ModelView {
    /// No two fields of the model have the same name.
    pub open spec fn field_names_unique(self) -> bool {
        forall|i: int, j: int|
            0 <= i < j < self.fields.len() ==> (#[trigger] self.fields[i]).name != (
            #[trigger] self.fields[j]).name
    }

    /// Every index of the model has at least one field.
    pub open spec fn indices_wf(self) -> bool {
        forall|i: int| 0 <= i < self.indices.len() ==> (#[trigger] self.indices[i]).wf()
    }

    /// The primary key of the model, if it has one, has at least one field.
    pub open spec fn primary_key_wf(self) -> bool {
        self.primary_key matches Some(pk) ==> pk.wf()
    }

    /// The invariant of a model: its field names are unique, and its indexes
    /// and its primary key each have at least one field.
    pub open spec fn wf(self) -> bool {
        &&& self.field_names_unique()
        &&& self.indices_wf()
        &&& self.primary_key_wf()
    }

    /// The name of the table that holds the model.
    pub open spec fn table_name(self) -> Seq<char> {
        match self.database_name {
            Some(n) => n,
            None => self.name,
        }
    }

    /// Some field is called `name`.
    pub open spec fn has_field(self, name: Seq<char>) -> bool {
        any(self.fields, named(name))
    }

    /// The first field called `name`.
    pub open spec fn find_field(self, name: Seq<char>) -> Option<FieldView> {
        first(self.fields, named(name))
    }

    /// The first scalar field called `name`.
    pub open spec fn find_scalar_field(self, name: Seq<char>) -> Option<FieldView> {
        first(self.fields, scalar_named(name))
    }

    /// The first relation field called `name`.
    pub open spec fn find_relation_field(self, name: Seq<char>) -> Option<FieldView> {
        first(self.fields, relation_named(name))
    }

    /// The first scalar field that the database calls `db_name`.
    pub open spec fn find_scalar_field_db_name(self, db_name: Seq<char>) -> Option<FieldView> {
        first(self.fields, scalar_mapped_to(db_name))
    }

    /// The primary key is the field `name` alone.
    pub open spec fn field_is_primary(self, name: Seq<char>) -> bool {
        self.primary_key matches Some(pk) && pk.is_on(name)
    }

    /// The primary key is the field `name` alone, and was declared on it.
    pub open spec fn field_is_primary_and_defined_on_field(self, name: Seq<char>) -> bool {
        self.primary_key matches Some(pk) && pk.is_on(name) && pk.defined_on_field
    }

    /// Some unique index is on the field `name` alone.
    pub open spec fn field_is_unique(self, name: Seq<char>) -> bool {
        any(self.indices, unique_on(name))
    }

    /// Some unique index is on the field `name` alone, and was declared on it.
    pub open spec fn field_is_unique_and_defined_on_field(self, name: Seq<char>) -> bool {
        any(self.indices, unique_on_field_itself(name))
    }

    /// The field `name` is the first field of the primary key.
    pub open spec fn leads_primary_key(self, name: Seq<char>) -> bool {
        self.primary_key matches Some(pk) && pk.leads_with(name)
    }

    /// The field `name` is the primary key, or alone in a unique index, or
    /// the first field of an index or of the primary key. An index of several
    /// fields covers only its first.
    pub open spec fn field_is_indexed(self, name: Seq<char>) -> bool {
        ||| self.field_is_primary(name)
        ||| self.field_is_unique(name)
        ||| any(self.indices, leading_with(name))
        ||| self.leads_primary_key(name)
    }

    /// The primary key is a single field.
    pub open spec fn has_single_id_field(self) -> bool {
        self.primary_key matches Some(pk) && pk.fields.len() == 1
    }

    /// The scalar field called `name`, or else the one called `lowercase`, is
    /// a date and time.
    pub open spec fn has_timestamp(self, name: Seq<char>, lowercase: Seq<char>) -> bool {
        match self.find_scalar_field(name) {
            Some(f) => f.field_type.is_scalar(ScalarType::DateTime),
            None => match self.find_scalar_field(lowercase) {
                Some(f) => f.field_type.is_scalar(ScalarType::DateTime),
                None => false,
            },
        }
    }

    /// The model has the two timestamps `createdAt` and `updatedAt`, each
    /// under that name or in lower case.
    pub open spec fn has_created_at_and_updated_at(self) -> bool {
        self.has_timestamp("createdAt"@, "createdat"@) && self.has_timestamp(
            "updatedAt"@,
            "updatedat"@,
        )
    }

    /// The scalar field `name` is the whole primary key, is an integer, and
    /// takes its default from a generator expression.
    pub open spec fn field_is_auto_generated_int_id(self, name: Seq<char>) -> bool {
        &&& self.find_scalar_field(name) matches Some(f)
        &&& f.default_value matches Some(d)
        &&& d is Expression
        &&& self.field_is_primary(name)
        &&& f.field_type.is_scalar(ScalarType::Int)
    }
}

impl View for Model {
    type V = ModelView;

    open spec fn view(&self) -> ModelView {
        ModelView {
            name: self.name@,
            fields: views(self.fields@),
            documentation: opt_view(self.documentation),
            database_name: opt_view(self.database_name),
            indices: views(self.indices@),
            primary_key: opt_view(self.primary_key),
            is_generated: self.is_generated,
            is_commented_out: self.is_commented_out,
            is_ignored: self.is_ignored,
        }
    }
}

/// A set of fields through which a record can be uniquely identified.
#[derive(Debug)]
pub struct UniqueCriteria<'a> {
    pub fields: Vec<&'a ScalarField>,
}

impl<'a> UniqueCriteria<'a> {
    /// The criteria of the given fields.
    pub fn new(fields: Vec<&'a ScalarField>) -> (r: UniqueCriteria<'a>)
        ensures
            r.fields == fields,
    {
        UniqueCriteria { fields }
    }
}

impl Model {
    /// Creates a new model with the given name: no fields, no indexes, no
    /// primary key, no documentation, no flag set.
    pub fn new(name: String, database_name: Option<String>) -> (r: Model)
        ensures
            r@ == (ModelView {
                name: name@,
                fields: Seq::empty(),
                documentation: None,
                database_name: opt_view(database_name),
                indices: Seq::empty(),
                primary_key: None,
                is_generated: false,
                is_commented_out: false,
                is_ignored: false,
            }),
            r@.wf(),
    {
        let r = Model {
            name,
            fields: Vec::new(),
            indices: Vec::new(),
            primary_key: None,
            documentation: None,
            database_name,
            is_generated: false,
            is_commented_out: false,
            is_ignored: false,
        };
        assert(r@.fields =~= Seq::empty());
        assert(r@.indices =~= Seq::empty());
        r
    }

    /// The name of the model.
    pub fn name(&self) -> (r: &String)
        ensures
            r@ == self@.name,
    {
        &self.name
    }

    /// Gives the model another name.
    pub fn set_name(&mut self, name: &str)
        ensures
            final(self)@ == (ModelView { name: name@, ..old(self)@ }),
    {
        self.name = name.to_owned();
    }

    /// The name of the model in the database, where it has one of its own.
    pub fn database_name(&self) -> (r: Option<&str>)
        ensures
            opt_view(r) == self@.database_name,
    {
        match &self.database_name {
            Some(n) => Some(n.as_str()),
            None => None,
        }
    }

    /// Gives the model another name in the database, or none.
    pub fn set_database_name(&mut self, database_name: Option<String>)
        ensures
            final(self)@ == (ModelView { database_name: opt_view(database_name), ..old(self)@ }),
    {
        self.database_name = database_name;
    }

    /// Whether the client is to ignore the model.
    pub fn is_ignored(&self) -> (r: bool)
        ensures
            r == self@.is_ignored,
    {
        self.is_ignored
    }

    /// Marks the model as one that the client is to ignore.
    pub fn ignore(&mut self)
        ensures
            final(self)@ == (ModelView { is_ignored: true, ..old(self)@ }),
    {
        self.is_ignored = true;
    }

    /// Adds a field to this model, after those it has. A field of the same
    /// name may be there already.
    pub fn add_field(&mut self, field: Field)
        ensures
            final(self)@ == (ModelView { fields: old(self)@.fields.push(field@), ..old(self)@ }),
    {
        self.fields.push(field);
        assert(self@.fields =~= old(self)@.fields.push(field@));
    }

    /// Adds an index to this model, after those it has.
    pub fn add_index(&mut self, index: IndexDefinition)
        ensures
            final(self)@ == (ModelView { indices: old(self)@.indices.push(index@), ..old(self)@ }),
    {
        self.indices.push(index);
        assert(self@.indices =~= old(self)@.indices.push(index@));
    }

    /// Finds a field by name.
    pub fn find_field(&self, name: &str) -> (r: Option<&Field>)
        ensures
            opt_view(r) == self@.find_field(name@),
            r is Some <==> any(self@.fields, named(name@)),
            r matches Some(f) ==> named(name@)(f@),
    {
        let mut i: usize = 0;
        while i < self.fields.len()
            invariant
                i <= self.fields.len(),
                forall|k: int| 0 <= k < i ==> !named(name@)(#[trigger] self@.fields[k]),
            decreases self.fields.len() - i,
        {
            if str_eq(self.fields[i].name(), name) {
                proof {
                    lemma_first_position(self@.fields, named(name@), i as int);
                }
                return Some(&self.fields[i]);
            }
            i = i + 1;
        }
        proof {
            lemma_first_none(self@.fields, named(name@));
        }
        None
    }

    /// Whether some field is called `name`.
    pub fn has_field(&self, name: &str) -> (r: bool)
        ensures
            r == self@.has_field(name@),
    {
        self.find_field(name).is_some()
    }

    /// Finds a scalar field by name.
    pub fn find_scalar_field(&self, name: &str) -> (r: Option<&ScalarField>)
        ensures
            opt_view(r) == self@.find_scalar_field(name@),
            r is Some <==> any(self@.fields, scalar_named(name@)),
            r matches Some(f) ==> scalar_named(name@)(f@),
    {
        let mut i: usize = 0;
        while i < self.fields.len()
            invariant
                i <= self.fields.len(),
                forall|k: int| 0 <= k < i ==> !scalar_named(name@)(#[trigger] self@.fields[k]),
            decreases self.fields.len() - i,
        {
            if let Field::ScalarField(f) = &self.fields[i] {
                if str_eq(f.name.as_str(), name) {
                    proof {
                        lemma_first_position(self@.fields, scalar_named(name@), i as int);
                    }
                    return Some(f);
                }
            }
            i = i + 1;
        }
        proof {
            lemma_first_none(self@.fields, scalar_named(name@));
        }
        None
    }

    /// Finds a relation field by name.
    pub fn find_relation_field(&self, name: &str) -> (r: Option<&RelationField>)
        ensures
            opt_view(r) == self@.find_relation_field(name@),
            r is Some <==> any(self@.fields, relation_named(name@)),
            r matches Some(f) ==> relation_named(name@)(f@),
    {
        let mut i: usize = 0;
        while i < self.fields.len()
            invariant
                i <= self.fields.len(),
                forall|k: int| 0 <= k < i ==> !relation_named(name@)(#[trigger] self@.fields[k]),
            decreases self.fields.len() - i,
        {
            if let Field::RelationField(f) = &self.fields[i] {
                if str_eq(f.name.as_str(), name) {
                    proof {
                        lemma_first_position(self@.fields, relation_named(name@), i as int);
                    }
                    return Some(f);
                }
            }
            i = i + 1;
        }
        proof {
            lemma_first_none(self@.fields, relation_named(name@));
        }
        None
    }

    /// Finds a scalar field by its name in the database.
    pub fn find_scalar_field_db_name(&self, db_name: &str) -> (r: Option<&ScalarField>)
        ensures
            opt_view(r) == self@.find_scalar_field_db_name(db_name@),
            r is Some <==> any(self@.fields, scalar_mapped_to(db_name@)),
            r matches Some(f) ==> scalar_mapped_to(db_name@)(f@),
    {
        let mut i: usize = 0;
        while i < self.fields.len()
            invariant
                i <= self.fields.len(),
                forall|k: int|
                    0 <= k < i ==> !scalar_mapped_to(db_name@)(#[trigger] self@.fields[k]),
            decreases self.fields.len() - i,
        {
            if let Field::ScalarField(f) = &self.fields[i] {
                if let Some(n) = &f.database_name {
                    if str_eq(n.as_str(), db_name) {
                        proof {
                            lemma_first_position(
                                self@.fields,
                                scalar_mapped_to(db_name@),
                                i as int,
                            );
                        }
                        return Some(f);
                    }
                }
            }
            i = i + 1;
        }
        proof {
            lemma_first_none(self@.fields, scalar_mapped_to(db_name@));
        }
        None
    }

    /// All scalar fields, in the order of the model.
    pub fn scalar_fields(&self) -> (r: Vec<&ScalarField>)
        ensures
            views(r@) == self@.fields.filter(scalar()),
    {
        let mut out: Vec<&ScalarField> = Vec::new();
        let mut i: usize = 0;
        assert(self@.fields.take(0) =~= Seq::empty());
        assert(views(out@) =~= Seq::<FieldView>::empty());
        proof {
            reveal(Seq::filter);
        }
        while i < self.fields.len()
            invariant
                i <= self.fields.len(),
                views(out@) == self@.fields.take(i as int).filter(scalar()),
            decreases self.fields.len() - i,
        {
            proof {
                let s = self@.fields;
                assert(s.take(i + 1) =~= s.take(i as int).push(s[i as int]));
                s.take(i as int).lemma_filter_push(s[i as int], scalar());
            }
            let ghost before = views(out@);
            if let Field::ScalarField(f) = &self.fields[i] {
                out.push(f);
                assert(views(out@) =~= before.push(f@));
            }
            i = i + 1;
        }
        assert(self@.fields.take(i as int) =~= self@.fields);
        out
    }

    /// All relation fields, in the order of the model.
    pub fn relation_fields(&self) -> (r: Vec<&RelationField>)
        ensures
            views(r@) == self@.fields.filter(relation()),
    {
        let mut out: Vec<&RelationField> = Vec::new();
        let mut i: usize = 0;
        assert(self@.fields.take(0) =~= Seq::empty());
        assert(views(out@) =~= Seq::<FieldView>::empty());
        proof {
            reveal(Seq::filter);
        }
        while i < self.fields.len()
            invariant
                i <= self.fields.len(),
                views(out@) == self@.fields.take(i as int).filter(relation()),
            decreases self.fields.len() - i,
        {
            proof {
                let s = self@.fields;
                assert(s.take(i + 1) =~= s.take(i as int).push(s[i as int]));
                s.take(i as int).lemma_filter_push(s[i as int], relation());
            }
            let ghost before = views(out@);
            if let Field::RelationField(f) = &self.fields[i] {
                out.push(f);
                assert(views(out@) =~= before.push(f@));
            }
            i = i + 1;
        }
        assert(self@.fields.take(i as int) =~= self@.fields);
        out
    }

    /// Whether the primary key is the field `field_name` alone.
    pub fn field_is_primary(&self, field_name: &str) -> (r: bool)
        ensures
            r == self@.field_is_primary(field_name@),
    {
        match &self.primary_key {
            Some(pk) => pk.is_on(field_name),
            None => false,
        }
    }

    /// Whether the primary key is the field `field_name` alone and was
    /// declared on that field.
    pub fn field_is_primary_and_defined_on_field(&self, field_name: &str) -> (r: bool)
        ensures
            r == self@.field_is_primary_and_defined_on_field(field_name@),
    {
        match &self.primary_key {
            Some(pk) => pk.is_on(field_name) && pk.defined_on_field,
            None => false,
        }
    }

    /// Determines whether there is a singular primary key.
    pub fn has_single_id_field(&self) -> (r: bool)
        ensures
            r == self@.has_single_id_field(),
    {
        match &self.primary_key {
            Some(pk) => pk.fields.len() == 1,
            None => false,
        }
    }

    /// Whether some unique index is on the field `name` alone.
    pub fn field_is_unique(&self, name: &str) -> (r: bool)
        requires
            self@.indices_wf(),
        ensures
            r == self@.field_is_unique(name@),
    {
        let mut i: usize = 0;
        while i < self.indices.len()
            invariant
                i <= self.indices.len(),
                forall|k: int| 0 <= k < i ==> !unique_on(name@)(#[trigger] self@.indices[k]),
            decreases self.indices.len() - i,
        {
            if self.indices[i].is_unique_on(name) {
                assert(unique_on(name@)(self@.indices[i as int]));
                return true;
            }
            i = i + 1;
        }
        false
    }

    /// Whether some unique index is on the field `name` alone and was
    /// declared on that field.
    pub fn field_is_unique_and_defined_on_field(&self, name: &str) -> (r: bool)
        requires
            self@.indices_wf(),
        ensures
            r == self@.field_is_unique_and_defined_on_field(name@),
    {
        let mut i: usize = 0;
        while i < self.indices.len()
            invariant
                i <= self.indices.len(),
                forall|k: int|
                    0 <= k < i ==> !unique_on_field_itself(name@)(#[trigger] self@.indices[k]),
            decreases self.indices.len() - i,
        {
            if self.indices[i].is_unique_on(name) && self.indices[i].defined_on_field {
                assert(unique_on_field_itself(name@)(self@.indices[i as int]));
                return true;
            }
            i = i + 1;
        }
        false
    }

    fn leads_an_index(&self, name: &str) -> (r: bool)
        ensures
            r == any(self@.indices, leading_with(name@)),
    {
        let mut i: usize = 0;
        while i < self.indices.len()
            invariant
                i <= self.indices.len(),
                forall|k: int| 0 <= k < i ==> !leading_with(name@)(#[trigger] self@.indices[k]),
            decreases self.indices.len() - i,
        {
            if self.indices[i].leads_with(name) {
                assert(leading_with(name@)(self@.indices[i as int]));
                return true;
            }
            i = i + 1;
        }
        false
    }

    /// Whether the field `name` is the primary key, or alone in a unique
    /// index, or the first field of an index or of the primary key.
    pub fn field_is_indexed(&self, name: &str) -> (r: bool)
        requires
            self@.has_field(name@),
            self@.indices_wf(),
            self@.primary_key_wf(),
        ensures
            r == self@.field_is_indexed(name@),
    {
        if self.field_is_primary(name) || self.field_is_unique(name) {
            return true;
        }
        let is_first_in_index = self.leads_an_index(name);
        let is_first_in_primary_key = match &self.primary_key {
            Some(pk) => pk.leads_with(name),
            None => false,
        };
        is_first_in_index || is_first_in_primary_key
    }

    fn has_timestamp(&self, name: &str, lowercase: &str) -> (r: bool)
        ensures
            r == self@.has_timestamp(name@, lowercase@),
    {
        match self.find_scalar_field(name) {
            Some(f) => f.field_type.is_datetime(),
            None => match self.find_scalar_field(lowercase) {
                Some(f) => f.field_type.is_datetime(),
                None => false,
            },
        }
    }

    /// Whether the model has the two timestamps `createdAt` and `updatedAt`:
    /// scalar fields of those names, or of those names in lower case, that
    /// hold a date and time.
    pub fn has_created_at_and_updated_at(&self) -> (r: bool)
        ensures
            r == self@.has_created_at_and_updated_at(),
    {
        self.has_timestamp("createdAt", "createdat") && self.has_timestamp(
            "updatedAt",
            "updatedat",
        )
    }

    /// Whether the scalar field `name` is the whole primary key, is an
    /// integer, and takes its default from a generator expression.
    pub fn field_is_auto_generated_int_id(&self, name: &str) -> (r: bool)
        requires
            self@.find_scalar_field(name@) is Some,
        ensures
            r == self@.field_is_auto_generated_int_id(name@),
    {
        match self.find_scalar_field(name) {
            Some(field) => {
                let is_autogenerated_id = match &field.default_value {
                    Some(d) => d.is_expression() && self.field_is_primary(name),
                    None => false,
                };
                let is_an_int = field.field_type.is_int();
                is_autogenerated_id && is_an_int
            },
            None => false,
        }
    }
}

impl Model {
    /// Whether `other` differs from this model in its fields at most.
    pub open spec fn same_but_fields(&self, other: &Model) -> bool {
        &&& self.name == other.name
        &&& self.documentation == other.documentation
        &&& self.database_name == other.database_name
        &&& self.indices == other.indices
        &&& self.primary_key == other.primary_key
        &&& self.is_generated == other.is_generated
        &&& self.is_commented_out == other.is_commented_out
        &&& self.is_ignored == other.is_ignored
    }

    /// The fields of the model, in order.
    pub fn fields(&self) -> (r: core::slice::Iter<'_, Field>)
        ensures
            vstd::std_specs::slice::into_iter_elts(r) == self.fields@,
    {
        self.fields.iter()
    }

    /// The fields of the model, to be changed in place.
    pub fn fields_mut(&mut self) -> (r: &mut Vec<Field>)
        ensures
            *r == old(self).fields,
            final(self).fields == *final(r),
            final(self).same_but_fields(old(self)),
    {
        &mut self.fields
    }

    fn position_of(&self, name: &str) -> (r: Option<usize>)
        ensures
            match r {
                Some(i) => is_first(self@.fields, named(name@), i as int),
                None => !self@.has_field(name@),
            },
    {
        let mut i: usize = 0;
        while i < self.fields.len()
            invariant
                i <= self.fields.len(),
                forall|k: int| 0 <= k < i ==> !named(name@)(#[trigger] self@.fields[k]),
            decreases self.fields.len() - i,
        {
            if str_eq(self.fields[i].name(), name) {
                return Some(i);
            }
            i = i + 1;
        }
        None
    }

    /// Finds a field by name, to be changed in place; `None` where the model
    /// has no field of that name.
    pub fn try_find_field_mut(&mut self, name: &str) -> (r: Option<&mut Field>)
        ensures
            match r {
                Some(f) => {
                    let i = first_position(old(self)@.fields, named(name@));
                    &&& i is Some
                    &&& is_first(old(self)@.fields, named(name@), i->0)
                    &&& *f == old(self).fields@[i->0]
                    &&& final(self).fields@ == old(self).fields@.update(i->0, *final(f))
                    &&& final(self).same_but_fields(old(self))
                },
                None => !old(self)@.has_field(name@) && *final(self) == *old(self),
            },
    {
        match self.position_of(name) {
            Some(i) => {
                proof {
                    lemma_first_position(self@.fields, named(name@), i as int);
                }
                Some(&mut self.fields[i])
            },
            None => None,
        }
    }

    /// Finds a field by name, to be changed in place. The model must have a
    /// field of that name.
    pub fn find_field_mut(&mut self, name: &str) -> (r: &mut Field)
        requires
            old(self)@.has_field(name@),
        ensures
            first_position(old(self)@.fields, named(name@)) matches Some(i) && {
                &&& is_first(old(self)@.fields, named(name@), i)
                &&& *r == old(self).fields@[i]
                &&& final(self).fields@ == old(self).fields@.update(i, *final(r))
                &&& final(self).same_but_fields(old(self))
            },
    {
        let mut i: usize = 0;
        while i < self.fields.len() && !str_eq(self.fields[i].name(), name)
            invariant
                i <= self.fields.len(),
                *self == *old(self),
                forall|k: int| 0 <= k < i ==> !named(name@)(#[trigger] self@.fields[k]),
            decreases self.fields.len() - i,
        {
            i = i + 1;
        }
        proof {
            lemma_first_position(self@.fields, named(name@), i as int);
        }
        &mut self.fields[i]
    }
}

impl Field {
    /// Whether this is a scalar field called `name`.
    pub fn is_scalar_named(&self, name: &str) -> (r: bool)
        ensures
            r == scalar_named(name@)(self@),
    {
        match self {
            Field::ScalarField(f) => str_eq(f.name.as_str(), name),
            _ => false,
        }
    }

    /// Whether this is a relation field called `name`.
    pub fn is_relation_named(&self, name: &str) -> (r: bool)
        ensures
            r == relation_named(name@)(self@),
    {
        match self {
            Field::RelationField(f) => str_eq(f.name.as_str(), name),
            _ => false,
        }
    }
}

impl Model {
    /// Finds a scalar field by name, to be changed in place. The model must
    /// have a scalar field of that name.
    pub fn find_scalar_field_mut(&mut self, name: &str) -> (r: &mut ScalarField)
        requires
            any(old(self)@.fields, scalar_named(name@)),
        ensures
            first_position(old(self)@.fields, scalar_named(name@)) matches Some(i) && {
                &&& is_first(old(self)@.fields, scalar_named(name@), i)
                &&& Field::ScalarField(*r) == old(self).fields@[i]
                &&& final(self).fields@ == old(self).fields@.update(
                    i,
                    Field::ScalarField(*final(r)),
                )
                &&& final(self).same_but_fields(old(self))
            },
    {
        let mut i: usize = 0;
        while i < self.fields.len() && !self.fields[i].is_scalar_named(name)
            invariant
                i <= self.fields.len(),
                *self == *old(self),
                forall|k: int| 0 <= k < i ==> !scalar_named(name@)(#[trigger] self@.fields[k]),
            decreases self.fields.len() - i,
        {
            i = i + 1;
        }
        proof {
            lemma_first_position(self@.fields, scalar_named(name@), i as int);
        }
        match &mut self.fields[i] {
            Field::ScalarField(f) => f,
            _ => vstd::pervasive::unreached(),
        }
    }

    /// Finds a scalar field by name, to be changed in place; `None` where
    /// the model has no scalar field of that name.
    pub fn try_find_scalar_field_mut(&mut self, name: &str) -> (r: Option<&mut ScalarField>)
        ensures
            match r {
                Some(f) => {
                    let i = first_position(old(self)@.fields, scalar_named(name@));
                    &&& i is Some
                    &&& is_first(old(self)@.fields, scalar_named(name@), i->0)
                    &&& Field::ScalarField(*f) == old(self).fields@[i->0]
                    &&& final(self).fields@ == old(self).fields@.update(
                        i->0,
                        Field::ScalarField(*final(f)),
                    )
                    &&& final(self).same_but_fields(old(self))
                },
                None => !any(old(self)@.fields, scalar_named(name@)) && *final(self) == *old(
                    self,
                ),
            },
    {
        if self.find_scalar_field(name).is_some() {
            Some(self.find_scalar_field_mut(name))
        } else {
            None
        }
    }

    /// Finds a relation field by name, to be changed in place; `None` where
    /// the model has no relation field of that name.
    pub fn try_find_relation_field_mut(&mut self, name: &str) -> (r: Option<&mut RelationField>)
        ensures
            match r {
                Some(f) => {
                    let i = first_position(old(self)@.fields, relation_named(name@));
                    &&& i is Some
                    &&& is_first(old(self)@.fields, relation_named(name@), i->0)
                    &&& Field::RelationField(*f) == old(self).fields@[i->0]
                    &&& final(self).fields@ == old(self).fields@.update(
                        i->0,
                        Field::RelationField(*final(f)),
                    )
                    &&& final(self).same_but_fields(old(self))
                },
                None => !any(old(self)@.fields, relation_named(name@)) && *final(self) == *old(
                    self,
                ),
            },
    {
        if self.find_relation_field(name).is_some() {
            Some(self.find_relation_field_mut(name))
        } else {
            None
        }
    }

    /// Finds a relation field by name, to be changed in place. The model must
    /// have a relation field of that name.
    pub fn find_relation_field_mut(&mut self, name: &str) -> (r: &mut RelationField)
        requires
            any(old(self)@.fields, relation_named(name@)),
        ensures
            first_position(old(self)@.fields, relation_named(name@)) matches Some(i) && {
                &&& is_first(old(self)@.fields, relation_named(name@), i)
                &&& Field::RelationField(*r) == old(self).fields@[i]
                &&& final(self).fields@ == old(self).fields@.update(
                    i,
                    Field::RelationField(*final(r)),
                )
                &&& final(self).same_but_fields(old(self))
            },
    {
        let mut i: usize = 0;
        while i < self.fields.len() && !self.fields[i].is_relation_named(name)
            invariant
                i <= self.fields.len(),
                *self == *old(self),
                forall|k: int| 0 <= k < i ==> !relation_named(name@)(#[trigger] self@.fields[k]),
            decreases self.fields.len() - i,
        {
            i = i + 1;
        }
        proof {
            lemma_first_position(self@.fields, relation_named(name@), i as int);
        }
        match &mut self.fields[i] {
            Field::RelationField(f) => f,
            _ => vstd::pervasive::unreached(),
        }
    }
}

fn fields_clone(fields: &Vec<Field>) -> (r: Vec<Field>)
    ensures
        views(r@) == views(fields@),
{
    let mut out: Vec<Field> = Vec::new();
    let mut i: usize = 0;
    while i < fields.len()
        invariant
            i <= fields.len(),
            out@.len() == i,
            forall|k: int| 0 <= k < i ==> out@[k]@ == fields@[k]@,
        decreases fields.len() - i,
    {
        out.push(fields[i].clone());
        i = i + 1;
    }
    assert(views(out@) =~= views(fields@));
    out
}

fn fields_eq(a: &Vec<Field>, b: &Vec<Field>) -> (r: bool)
    ensures
        r == (views(a@) == views(b@)),
{
    if a.len() != b.len() {
        assert(views(a@).len() != views(b@).len());
        return false;
    }
    let mut i: usize = 0;
    while i < a.len()
        invariant
            i <= a.len(),
            a.len() == b.len(),
            forall|k: int| 0 <= k < i ==> a@[k]@ == b@[k]@,
        decreases a.len() - i,
    {
        if !(a[i] == b[i]) {
            assert(views(a@)[i as int] != views(b@)[i as int]);
            return false;
        }
        i = i + 1;
    }
    assert(views(a@) =~= views(b@));
    true
}

fn indices_clone(indices: &Vec<IndexDefinition>) -> (r: Vec<IndexDefinition>)
    ensures
        views(r@) == views(indices@),
{
    let mut out: Vec<IndexDefinition> = Vec::new();
    let mut i: usize = 0;
    while i < indices.len()
        invariant
            i <= indices.len(),
            out@.len() == i,
            forall|k: int| 0 <= k < i ==> out@[k]@ == indices@[k]@,
        decreases indices.len() - i,
    {
        out.push(indices[i].clone());
        i = i + 1;
    }
    assert(views(out@) =~= views(indices@));
    out
}

fn indices_eq(a: &Vec<IndexDefinition>, b: &Vec<IndexDefinition>) -> (r: bool)
    ensures
        r == (views(a@) == views(b@)),
{
    if a.len() != b.len() {
        assert(views(a@).len() != views(b@).len());
        return false;
    }
    let mut i: usize = 0;
    while i < a.len()
        invariant
            i <= a.len(),
            a.len() == b.len(),
            forall|k: int| 0 <= k < i ==> a@[k]@ == b@[k]@,
        decreases a.len() - i,
    {
        if !(a[i] == b[i]) {
            assert(views(a@)[i as int] != views(b@)[i as int]);
            return false;
        }
        i = i + 1;
    }
    assert(views(a@) =~= views(b@));
    true
}

/// Whether two optional primary keys are both absent or alike.
pub fn opt_primary_key_eq(a: &Option<PrimaryKeyDefinition>, b: &Option<PrimaryKeyDefinition>) -> (r:
    bool)
    ensures
        r == (opt_view(*a) == opt_view(*b)),
{
    match (a, b) {
        (Some(x), Some(y)) => x == y,
        (None, None) => true,
        _ => false,
    }
}

impl Clone for Model {
    fn clone(&self) -> (r: Self)
        ensures
            r@ == self@,
    {
        Model {
            name: self.name.clone(),
            fields: fields_clone(&self.fields),
            documentation: opt_str_clone(&self.documentation),
            database_name: opt_str_clone(&self.database_name),
            indices: indices_clone(&self.indices),
            primary_key: match &self.primary_key {
                Some(pk) => Some(pk.clone()),
                None => None,
            },
            is_generated: self.is_generated,
            is_commented_out: self.is_commented_out,
            is_ignored: self.is_ignored,
        }
    }
}

impl PartialEq for Model {
    fn eq(&self, other: &Self) -> (r: bool) {
        str_eq(self.name.as_str(), other.name.as_str()) && fields_eq(&self.fields, &other.fields)
            && opt_str_eq(&self.documentation, &other.documentation) && opt_str_eq(
            &self.database_name,
            &other.database_name,
        ) && indices_eq(&self.indices, &other.indices) && opt_primary_key_eq(
            &self.primary_key,
            &other.primary_key,
        ) && self.is_generated == other.is_generated && self.is_commented_out
            == other.is_commented_out && self.is_ignored == other.is_ignored
    }
}

impl PartialEqSpecImpl for Model {
    open spec fn obeys_eq_spec() -> bool {
        true
    }

    open spec fn eq_spec(&self, other: &Self) -> bool {
        self@ == other@
    }
}

impl Default for Model {
    /// The model without a name: no fields, no indexes, no primary key.
    fn default() -> (r: Self)
        ensures
            r@ == (ModelView {
                name: Seq::empty(),
                fields: Seq::empty(),
                documentation: None,
                database_name: None,
                indices: Seq::empty(),
                primary_key: None,
                is_generated: false,
                is_commented_out: false,
                is_ignored: false,
            }),
    {
        Model::new(String::new(), None)
    }
}

impl ModelView {
    /// The field `name` stands at the position `p` of the index `k`.
    pub open spec fn in_index_at(self, k: int, p: int, name: Seq<char>) -> bool {
        &&& 0 <= k < self.indices.len()
        &&& 0 <= p < self.indices[k].fields.len()
        &&& self.indices[k].fields[p].location.is_model_field(name)
    }

    /// The field `name` stands at the position `p` of the primary key.
    pub open spec fn in_primary_key_at(self, p: int, name: Seq<char>) -> bool {
        &&& self.primary_key matches Some(pk)
        &&& 0 <= p < pk.fields.len()
        &&& pk.fields[p].name == name
    }
}

/// The field that an index begins with is indexed.
pub proof fn lemma_leading_field_is_indexed(m: ModelView, k: int, name: Seq<char>)
    requires
        m.in_index_at(k, 0, name),
    ensures
        m.field_is_indexed(name),
{
    assert(leading_with(name)(m.indices[k]));
}

/// A field that begins no index and does not begin the primary key is not
/// indexed, in whatever later positions it stands.
pub proof fn lemma_field_that_leads_nothing_is_not_indexed(m: ModelView, name: Seq<char>)
    requires
        forall|k: int| !m.in_index_at(k, 0, name),
        !m.in_primary_key_at(0, name),
    ensures
        !m.field_is_indexed(name),
{
    assert forall|k: int| 0 <= k < m.indices.len() implies !leading_with(name)(
        #[trigger] m.indices[k],
    ) by {
        assert(!m.in_index_at(k, 0, name));
    }
    assert forall|k: int| 0 <= k < m.indices.len() implies !unique_on(name)(
        #[trigger] m.indices[k],
    ) by {
        assert(!m.in_index_at(k, 0, name));
    }
}

/// An index of two fields covers the first and not the second: the first is
/// indexed, and the second is not where it stands in no other index and not
/// in the primary key.
pub proof fn lemma_index_covers_its_leading_field_only(
    m: ModelView,
    k: int,
    a: Seq<char>,
    b: Seq<char>,
)
    requires
        0 <= k < m.indices.len(),
        m.indices[k].fields.len() == 2,
        m.in_index_at(k, 0, a),
        m.in_index_at(k, 1, b),
        a != b,
        forall|i: int, p: int| m.in_index_at(i, p, b) ==> i == k && p == 1,
        forall|p: int| !m.in_primary_key_at(p, b),
    ensures
        m.field_is_indexed(a),
        !m.field_is_indexed(b),
{
    lemma_leading_field_is_indexed(m, k, a);
    assert forall|i: int| !m.in_index_at(i, 0, b) by {
        if m.in_index_at(i, 0, b) {
            assert(i == k && 0 == 1);
        }
    }
    lemma_field_that_leads_nothing_is_not_indexed(m, b);
}

/// How many of the fields before the position `p` are of the given kind.
#[verifier::opaque]
pub open spec fn fields_before(fields: Seq<Field>, kind: FieldKind, p: int) -> int
    decreases p,
{
    if p <= 0 {
        0
    } else {
        fields_before(fields, kind, p - 1) + if fields[p - 1]@.kind == kind {
            1int
        } else {
            0int
        }
    }
}

/// Past a field of the kind the count is one more, past another field it is
/// the same; before the first field it is nought.
pub proof fn lemma_fields_before_next(fields: Seq<Field>, kind: FieldKind, p: int)
    requires
        0 <= p,
    ensures
        fields_before(fields, kind, 0) == 0,
        fields_before(fields, kind, p + 1) == fields_before(fields, kind, p) + if fields[p]@.kind
            == kind {
            1int
        } else {
            0int
        },
{
    reveal_with_fuel(fields_before, 2);
}

/// The count grows with the position, and by one at least past a field of
/// the kind.
pub proof fn lemma_fields_before(fields: Seq<Field>, kind: FieldKind, p: int, q: int)
    requires
        0 <= p <= q,
    ensures
        fields_before(fields, kind, p) <= fields_before(fields, kind, q),
        p < q && fields[p]@.kind == kind ==> fields_before(fields, kind, p) < fields_before(
            fields,
            kind,
            q,
        ),
    decreases q,
{
    if p < q {
        lemma_fields_before(fields, kind, p, q - 1);
        lemma_fields_before_next(fields, kind, q - 1);
    }
}

/// How many of the fields before the position `p` are scalar fields.
pub open spec fn scalar_rank(fields: Seq<Field>, p: int) -> int {
    fields_before(fields, FieldKind::Scalar, p)
}

/// How many of the fields before the position `p` are relation fields.
pub open spec fn relation_rank(fields: Seq<Field>, p: int) -> int {
    fields_before(fields, FieldKind::Relation, p)
}

impl Model {
    /// The scalar fields of the model, in its order, each to be changed in
    /// place: the model will have at the place of each scalar field what
    /// the reference to it is left with, and all else as it is.
    #[verifier::loop_isolation(false)]
    pub fn scalar_fields_mut(&mut self) -> (r: Vec<&mut ScalarField>)
        ensures
            r@.len() == scalar_rank(old(self).fields@, old(self).fields@.len() as int),
            forall|p: int|
                0 <= p < old(self).fields@.len() && old(self).fields@[p]@.kind
                    == FieldKind::Scalar ==> {
                    &&& 0 <= scalar_rank(old(self).fields@, p) < r@.len()
                    &&& Field::ScalarField(*r@[scalar_rank(old(self).fields@, p)])
                        == #[trigger] old(self).fields@[p]
                },
            final(self).fields@.len() == old(self).fields@.len(),
            forall|p: int|
                0 <= p < old(self).fields@.len() ==> #[trigger] final(self).fields@[p] == (
                if old(self).fields@[p]@.kind == FieldKind::Scalar {
                    Field::ScalarField(*final(r@[scalar_rank(old(self).fields@, p)]))
                } else {
                    old(self).fields@[p]
                }),
            final(self).same_but_fields(old(self)),
    {
        let mut out: Vec<&mut ScalarField> = Vec::new();
        let ghost was = self.fields@;
        let ghost end = *final(self);
        let mut rest: &mut [Field] = self.fields.as_mut_slice();
        let ghost mut done: int = 0;
        proof {
            lemma_fields_before_next(was, FieldKind::Scalar, 0);
        }
        let ghost mut placed: Seq<Field> = end.fields@.take(0);
        assert(end.fields@ =~= placed + final(rest)@);
        while rest.len() > 0
            invariant
                0 <= done <= was.len(),
                rest@ == was.skip(done),
                out@.len() == scalar_rank(was, done),
                placed.len() == done,
                end.fields@ == placed + final(rest)@,
                forall|p: int|
                    0 <= p < done && (#[trigger] was[p])@.kind == FieldKind::Scalar ==> {
                        &&& 0 <= scalar_rank(was, p) < out@.len()
                        &&& Field::ScalarField(*out@[scalar_rank(was, p)]) == was[p]
                        &&& Field::ScalarField(*final(out@[scalar_rank(was, p)]))
                            == placed[p]
                    },
                forall|p: int|
                    0 <= p < done && (#[trigger] was[p])@.kind != FieldKind::Scalar
                        ==> placed[p] == was[p],
            decreases rest.len(),
        {
            let ghost all_left = final(rest)@;
            let ghost taken = out@;
            let ghost so_far = placed;
            let (head, tail) = rest.split_at_mut(1);
            let ghost head_left = final(head)@;
            rest = tail;
            match &mut head[0] {
                Field::ScalarField(f) => {
                    out.push(f);
                },
                _ => {},
            }
            proof {
                assert(rest@ =~= was.skip(done + 1));
                assert(all_left == head_left + final(rest)@);
                assert(head_left.len() == 1);
                placed = placed.push(head_left[0]);
                assert(end.fields@ =~= placed + final(rest)@);
                lemma_fields_before_next(was, FieldKind::Scalar, done);
                assert forall|p: int|
                    0 <= p < done + 1 && (#[trigger] was[p])@.kind == FieldKind::Scalar implies {
                    &&& 0 <= scalar_rank(was, p) < out@.len()
                    &&& Field::ScalarField(*out@[scalar_rank(was, p)]) == was[p]
                    &&& Field::ScalarField(*final(out@[scalar_rank(was, p)])) == placed[p]
                } by {
                    if p < done {
                        assert(out@[scalar_rank(was, p)] == taken[scalar_rank(was, p)]);
                        assert(placed[p] == so_far[p]);
                        lemma_fields_before(was, FieldKind::Scalar, p, done);
                    }
                }
                assert forall|p: int|
                    0 <= p < done + 1 && (#[trigger] was[p])@.kind
                        != FieldKind::Scalar implies placed[p] == was[p] by {
                    if p < done {
                        assert(placed[p] == so_far[p]);
                    }
                }
                done = done + 1;
            }
        }
        assert(end.fields@ =~= placed);
        out
    }

    /// The relation fields of the model, in its order, each to be changed in
    /// place: the model will have at the place of each relation field what
    /// the reference to it is left with, and all else as it is.
    #[verifier::loop_isolation(false)]
    pub fn relation_fields_mut(&mut self) -> (r: Vec<&mut RelationField>)
        ensures
            r@.len() == relation_rank(old(self).fields@, old(self).fields@.len() as int),
            forall|p: int|
                0 <= p < old(self).fields@.len() && old(self).fields@[p]@.kind
                    == FieldKind::Relation ==> {
                    &&& 0 <= relation_rank(old(self).fields@, p) < r@.len()
                    &&& Field::RelationField(*r@[relation_rank(old(self).fields@, p)])
                        == #[trigger] old(self).fields@[p]
                },
            final(self).fields@.len() == old(self).fields@.len(),
            forall|p: int|
                0 <= p < old(self).fields@.len() ==> #[trigger] final(self).fields@[p] == (
                if old(self).fields@[p]@.kind == FieldKind::Relation {
                    Field::RelationField(*final(r@[relation_rank(old(self).fields@, p)]))
                } else {
                    old(self).fields@[p]
                }),
            final(self).same_but_fields(old(self)),
    {
        let mut out: Vec<&mut RelationField> = Vec::new();
        let ghost was = self.fields@;
        let ghost end = *final(self);
        let mut rest: &mut [Field] = self.fields.as_mut_slice();
        let ghost mut done: int = 0;
        proof {
            lemma_fields_before_next(was, FieldKind::Relation, 0);
        }
        let ghost mut placed: Seq<Field> = end.fields@.take(0);
        assert(end.fields@ =~= placed + final(rest)@);
        while rest.len() > 0
            invariant
                0 <= done <= was.len(),
                rest@ == was.skip(done),
                out@.len() == relation_rank(was, done),
                placed.len() == done,
                end.fields@ == placed + final(rest)@,
                forall|p: int|
                    0 <= p < done && (#[trigger] was[p])@.kind == FieldKind::Relation ==> {
                        &&& 0 <= relation_rank(was, p) < out@.len()
                        &&& Field::RelationField(*out@[relation_rank(was, p)]) == was[p]
                        &&& Field::RelationField(*final(out@[relation_rank(was, p)]))
                            == placed[p]
                    },
                forall|p: int|
                    0 <= p < done && (#[trigger] was[p])@.kind != FieldKind::Relation
                        ==> placed[p] == was[p],
            decreases rest.len(),
        {
            let ghost all_left = final(rest)@;
            let ghost taken = out@;
            let ghost so_far = placed;
            let (head, tail) = rest.split_at_mut(1);
            let ghost head_left = final(head)@;
            rest = tail;
            match &mut head[0] {
                Field::RelationField(f) => {
                    out.push(f);
                },
                _ => {},
            }
            proof {
                assert(rest@ =~= was.skip(done + 1));
                assert(all_left == head_left + final(rest)@);
                assert(head_left.len() == 1);
                placed = placed.push(head_left[0]);
                assert(end.fields@ =~= placed + final(rest)@);
                lemma_fields_before_next(was, FieldKind::Relation, done);
                assert forall|p: int|
                    0 <= p < done + 1 && (#[trigger] was[p])@.kind == FieldKind::Relation implies {
                    &&& 0 <= relation_rank(was, p) < out@.len()
                    &&& Field::RelationField(*out@[relation_rank(was, p)]) == was[p]
                    &&& Field::RelationField(*final(out@[relation_rank(was, p)])) == placed[p]
                } by {
                    if p < done {
                        assert(out@[relation_rank(was, p)] == taken[relation_rank(was, p)]);
                        assert(placed[p] == so_far[p]);
                        lemma_fields_before(was, FieldKind::Relation, p, done);
                    }
                }
                assert forall|p: int|
                    0 <= p < done + 1 && (#[trigger] was[p])@.kind
                        != FieldKind::Relation implies placed[p] == was[p] by {
                    if p < done {
                        assert(placed[p] == so_far[p]);
                    }
                }
                done = done + 1;
            }
        }
        assert(end.fields@ =~= placed);
        out
    }
}

} // verus!

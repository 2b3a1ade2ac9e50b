//! A schema snapshot: the models and the composite types of one version of a
//! schema.

use crate::field::{Field, FieldView};
use crate::index::{IndexFieldLocation, IndexFieldLocationView};
use crate::model::{named, Model, ModelView};
use crate::seqs::{any, first, lemma_first_none, lemma_first_position, opt_view, views};
use crate::text::str_eq;
use vstd::prelude::*;
use vstd::std_specs::cmp::PartialEqSpecImpl;

verus! {

/// A reusable structure of fields that a model can embed as the type of a
/// field.
#[derive(Debug)]
pub struct CompositeType {
    pub name: String,
    pub fields: Vec<Field>,
}

/// The mathematical content of a [`CompositeType`].
pub ghost struct CompositeTypeView {
    pub name: Seq<char>,
    pub fields: Seq<FieldView>,
}

impl CompositeTypeView {
    /// Some field is called `name`.
    pub open spec fn has_field(self, name: Seq<char>) -> bool {
        any(self.fields, named(name))
    }

    /// The first field called `name`.
    pub open spec fn find_field(self, name: Seq<char>) -> Option<FieldView> {
        first(self.fields, named(name))
    }
}

impl View for CompositeType {
    type V = CompositeTypeView;

    open spec fn view(&self) -> CompositeTypeView {
        CompositeTypeView { name: self.name@, fields: views(self.fields@) }
    }
}

impl CompositeType {
    /// A composite type without fields.
    pub fn new(name: &str) -> (r: Self)
        ensures
            r@ == (CompositeTypeView { name: name@, fields: Seq::empty() }),
    {
        let r = CompositeType { name: name.to_owned(), fields: Vec::new() };
        assert(r@.fields =~= Seq::empty());
        r
    }

    /// Adds a field, after those the type has.
    pub fn add_field(&mut self, field: Field)
        ensures
            final(self)@ == (CompositeTypeView {
                fields: old(self)@.fields.push(field@),
                ..old(self)@
            }),
    {
        self.fields.push(field);
        assert(self@.fields =~= old(self)@.fields.push(field@));
    }

    /// Finds a field by name.
    pub fn find_field(&self, name: &str) -> (r: Option<&Field>)
        ensures
            opt_view(r) == self@.find_field(name@),
            r is Some <==> self@.has_field(name@),
            r matches Some(f) ==> f@.name == name@,
    {
        let mut i: usize = 0;
        while i < self.fields.len()
            invariant
                i <= self.fields.len(),
                forall|k: int| 0 <= k < i ==> !named(name@)(#[trigger] self@.fields[k]),
            decreases self.fields.len() - i,
        {
            if str_eq(self.fields[i].name(), name) {
                proof {
                    lemma_first_position(self@.fields, named(name@), i as int);
                }
                return Some(&self.fields[i]);
            }
            i = i + 1;
        }
        proof {
            lemma_first_none(self@.fields, named(name@));
        }
        None
    }

    /// Whether some field is called `name`.
    pub fn has_field(&self, name: &str) -> (r: bool)
        ensures
            r == self@.has_field(name@),
    {
        self.find_field(name).is_some()
    }
}

impl Clone for CompositeType {
    fn clone(&self) -> (r: Self)
        ensures
            r@ == self@,
    {
        let mut fields: Vec<Field> = Vec::new();
        let mut i: usize = 0;
        while i < self.fields.len()
            invariant
                i <= self.fields.len(),
                fields@.len() == i,
                forall|k: int| 0 <= k < i ==> fields@[k]@ == self.fields@[k]@,
            decreases self.fields.len() - i,
        {
            fields.push(self.fields[i].clone());
            i = i + 1;
        }
        let r = CompositeType { name: self.name.clone(), fields };
        assert(r@.fields =~= self@.fields);
        r
    }
}

impl PartialEq for CompositeType {
    fn eq(&self, other: &Self) -> (r: bool) {
        if !str_eq(self.name.as_str(), other.name.as_str()) {
            return false;
        }
        if self.fields.len() != other.fields.len() {
            assert(self@.fields.len() != other@.fields.len());
            return false;
        }
        let mut i: usize = 0;
        while i < self.fields.len()
            invariant
                i <= self.fields.len(),
                self.fields.len() == other.fields.len(),
                forall|k: int| 0 <= k < i ==> self.fields@[k]@ == other.fields@[k]@,
            decreases self.fields.len() - i,
        {
            if !(self.fields[i] == other.fields[i]) {
                assert(self@.fields[i as int] != other@.fields[i as int]);
                return false;
            }
            i = i + 1;
        }
        assert(self@.fields =~= other@.fields);
        true
    }
}

impl PartialEqSpecImpl for CompositeType {
    open spec fn obeys_eq_spec() -> bool {
        true
    }

    open spec fn eq_spec(&self, other: &Self) -> bool {
        self@ == other@
    }
}

/// Models called `name`.
pub open spec fn model_named(name: Seq<char>) -> spec_fn(ModelView) -> bool {
    |m: ModelView| m.name == name
}

/// Composite types called `name`.
pub open spec fn type_named(name: Seq<char>) -> spec_fn(CompositeTypeView) -> bool {
    |t: CompositeTypeView| t.name == name
}

/// One snapshot of a schema.
#[derive(Debug)]
pub struct Datamodel {
    pub models: Vec<Model>,
    pub composite_types: Vec<CompositeType>,
}

/// The mathematical content of a [`Datamodel`].
pub ghost struct DatamodelView {
    pub models: Seq<ModelView>,
    pub composite_types: Seq<CompositeTypeView>,
}

impl DatamodelView {
    /// Some model is called `name`.
    pub open spec fn has_model(self, name: Seq<char>) -> bool {
        any(self.models, model_named(name))
    }

    /// The first model called `name`.
    pub open spec fn find_model(self, name: Seq<char>) -> Option<ModelView> {
        first(self.models, model_named(name))
    }

    /// The first composite type called `name`.
    pub open spec fn find_composite_type(self, name: Seq<char>) -> Option<CompositeTypeView> {
        first(self.composite_types, type_named(name))
    }

    /// Whether the field of an index of the model `m` exists: in `m`, or in
    /// the composite type that the location names.
    pub open spec fn resolves(self, m: ModelView, location: IndexFieldLocationView) -> bool {
        match location {
            IndexFieldLocationView::InCurrentModel { field_name } => m.has_field(field_name),
            IndexFieldLocationView::InCompositeType { composite_type_name, field_name, .. } => {
                self.find_composite_type(composite_type_name) matches Some(t) && t.has_field(
                    field_name,
                )
            },
        }
    }

    /// No two models have the same name.
    pub open spec fn model_names_unique(self) -> bool {
        forall|i: int, j: int|
            0 <= i < j < self.models.len() ==> (#[trigger] self.models[i]).name != (
            #[trigger] self.models[j]).name
    }

    /// Every field of every index of the model `m` exists, and so does every
    /// field of its primary key.
    pub open spec fn model_resolves(self, m: ModelView) -> bool {
        &&& forall|i: int, j: int|
            0 <= i < m.indices.len() && 0 <= j < m.indices[i].fields.len() ==> self.resolves(
                m,
                #[trigger] m.indices[i].fields[j].location,
            )
        &&& m.primary_key matches Some(pk) ==> forall|j: int|
            0 <= j < pk.fields.len() ==> m.has_field((#[trigger] pk.fields[j]).name)
    }

    /// The invariant of a snapshot: model names are unique, every model
    /// keeps its own invariant, and what its indexes and its primary key
    /// refer to exists.
    pub open spec fn valid(self) -> bool {
        &&& self.model_names_unique()
        &&& forall|i: int|
            0 <= i < self.models.len() ==> (#[trigger] self.models[i]).wf() && self.model_resolves(
                self.models[i],
            )
    }
}

impl View for Datamodel {
    type V = DatamodelView;

    open spec fn view(&self) -> DatamodelView {
        DatamodelView {
            models: views(self.models@),
            composite_types: views(self.composite_types@),
        }
    }
}

impl Datamodel {
    /// The snapshot without models or composite types.
    pub fn empty() -> (r: Self)
        ensures
            r@ == (DatamodelView { models: Seq::empty(), composite_types: Seq::empty() }),
            r@.valid(),
    {
        let r = Datamodel { models: Vec::new(), composite_types: Vec::new() };
        assert(r@.models =~= Seq::empty());
        assert(r@.composite_types =~= Seq::empty());
        r
    }

    /// Adds a model, after those the snapshot has.
    pub fn add_model(&mut self, model: Model)
        ensures
            final(self)@ == (DatamodelView {
                models: old(self)@.models.push(model@),
                ..old(self)@
            }),
    {
        self.models.push(model);
        assert(self@.models =~= old(self)@.models.push(model@));
    }

    /// Adds a composite type, after those the snapshot has.
    pub fn add_composite_type(&mut self, composite_type: CompositeType)
        ensures
            final(self)@ == (DatamodelView {
                composite_types: old(self)@.composite_types.push(composite_type@),
                ..old(self)@
            }),
    {
        self.composite_types.push(composite_type);
        assert(self@.composite_types =~= old(self)@.composite_types.push(composite_type@));
    }

    /// Finds a model by name.
    pub fn find_model(&self, name: &str) -> (r: Option<&Model>)
        ensures
            opt_view(r) == self@.find_model(name@),
            r is Some <==> self@.has_model(name@),
            r matches Some(m) ==> m@.name == name@,
    {
        let mut i: usize = 0;
        while i < self.models.len()
            invariant
                i <= self.models.len(),
                forall|k: int| 0 <= k < i ==> !model_named(name@)(#[trigger] self@.models[k]),
            decreases self.models.len() - i,
        {
            if str_eq(self.models[i].name.as_str(), name) {
                proof {
                    lemma_first_position(self@.models, model_named(name@), i as int);
                }
                return Some(&self.models[i]);
            }
            i = i + 1;
        }
        proof {
            lemma_first_none(self@.models, model_named(name@));
        }
        None
    }

    /// Finds a composite type by name.
    pub fn find_composite_type(&self, name: &str) -> (r: Option<&CompositeType>)
        ensures
            opt_view(r) == self@.find_composite_type(name@),
            r is Some <==> any(self@.composite_types, type_named(name@)),
            r matches Some(t) ==> t@.name == name@,
    {
        let mut i: usize = 0;
        while i < self.composite_types.len()
            invariant
                i <= self.composite_types.len(),
                forall|k: int|
                    0 <= k < i ==> !type_named(name@)(#[trigger] self@.composite_types[k]),
            decreases self.composite_types.len() - i,
        {
            if str_eq(self.composite_types[i].name.as_str(), name) {
                proof {
                    lemma_first_position(self@.composite_types, type_named(name@), i as int);
                }
                return Some(&self.composite_types[i]);
            }
            i = i + 1;
        }
        proof {
            lemma_first_none(self@.composite_types, type_named(name@));
        }
        None
    }
}

impl Clone for Datamodel {
    fn clone(&self) -> (r: Self)
        ensures
            r@ == self@,
    {
        let mut models: Vec<Model> = Vec::new();
        let mut i: usize = 0;
        while i < self.models.len()
            invariant
                i <= self.models.len(),
                models@.len() == i,
                forall|k: int| 0 <= k < i ==> models@[k]@ == self.models@[k]@,
            decreases self.models.len() - i,
        {
            models.push(self.models[i].clone());
            i = i + 1;
        }
        let mut composite_types: Vec<CompositeType> = Vec::new();
        let mut j: usize = 0;
        while j < self.composite_types.len()
            invariant
                j <= self.composite_types.len(),
                composite_types@.len() == j,
                forall|k: int| 0 <= k < j ==> composite_types@[k]@ == self.composite_types@[k]@,
            decreases self.composite_types.len() - j,
        {
            composite_types.push(self.composite_types[j].clone());
            j = j + 1;
        }
        let r = Datamodel { models, composite_types };
        assert(r@.models =~= self@.models);
        assert(r@.composite_types =~= self@.composite_types);
        r
    }
}

impl PartialEq for Datamodel {
    fn eq(&self, other: &Self) -> (r: bool) {
        if self.models.len() != other.models.len() {
            assert(self@.models.len() != other@.models.len());
            return false;
        }
        if self.composite_types.len() != other.composite_types.len() {
            assert(self@.composite_types.len() != other@.composite_types.len());
            return false;
        }
        let mut i: usize = 0;
        while i < self.models.len()
            invariant
                i <= self.models.len(),
                self.models.len() == other.models.len(),
                forall|k: int| 0 <= k < i ==> self.models@[k]@ == other.models@[k]@,
            decreases self.models.len() - i,
        {
            if !(self.models[i] == other.models[i]) {
                assert(self@.models[i as int] != other@.models[i as int]);
                return false;
            }
            i = i + 1;
        }
        let mut j: usize = 0;
        while j < self.composite_types.len()
            invariant
                j <= self.composite_types.len(),
                self.composite_types.len() == other.composite_types.len(),
                forall|k: int|
                    0 <= k < j ==> self.composite_types@[k]@ == other.composite_types@[k]@,
            decreases self.composite_types.len() - j,
        {
            if !(self.composite_types[j] == other.composite_types[j]) {
                assert(self@.composite_types[j as int] != other@.composite_types[j as int]);
                return false;
            }
            j = j + 1;
        }
        assert(self@.models =~= other@.models);
        assert(self@.composite_types =~= other@.composite_types);
        true
    }
}

impl PartialEqSpecImpl for Datamodel {
    open spec fn obeys_eq_spec() -> bool {
        true
    }

    open spec fn eq_spec(&self, other: &Self) -> bool {
        self@ == other@
    }
}

impl Model {
    /// Whether no two fields of the model have the same name.
    pub fn has_unique_field_names(&self) -> (r: bool)
        ensures
            r == self@.field_names_unique(),
    {
        let mut j: usize = 0;
        while j < self.fields.len()
            invariant
                j <= self.fields.len(),
                forall|a: int, b: int|
                    0 <= a < b < j ==> (#[trigger] self@.fields[a]).name != (
                    #[trigger] self@.fields[b]).name,
            decreases self.fields.len() - j,
        {
            let mut i: usize = 0;
            while i < j
                invariant
                    i <= j < self.fields.len(),
                    forall|a: int|
                        0 <= a < i ==> (#[trigger] self@.fields[a]).name
                            != self@.fields[j as int].name,
                decreases j - i,
            {
                if str_eq(self.fields[i].name(), self.fields[j].name()) {
                    assert(self@.fields[i as int].name == self@.fields[j as int].name);
                    return false;
                }
                i = i + 1;
            }
            j = j + 1;
        }
        true
    }

    /// Whether every index of the model has at least one field.
    pub fn has_well_formed_indices(&self) -> (r: bool)
        ensures
            r == self@.indices_wf(),
    {
        let mut i: usize = 0;
        while i < self.indices.len()
            invariant
                i <= self.indices.len(),
                forall|k: int| 0 <= k < i ==> (#[trigger] self@.indices[k]).wf(),
            decreases self.indices.len() - i,
        {
            if self.indices[i].fields.len() == 0 {
                assert(!self@.indices[i as int].wf());
                return false;
            }
            i = i + 1;
        }
        true
    }

    /// Whether the primary key of the model, if it has one, has at least one
    /// field.
    pub fn has_well_formed_primary_key(&self) -> (r: bool)
        ensures
            r == self@.primary_key_wf(),
    {
        match &self.primary_key {
            Some(pk) => pk.fields.len() > 0,
            None => true,
        }
    }

    /// Whether the model keeps its invariant.
    pub fn is_wf(&self) -> (r: bool)
        ensures
            r == self@.wf(),
    {
        self.has_unique_field_names() && self.has_well_formed_indices()
            && self.has_well_formed_primary_key()
    }
}

impl Datamodel {
    /// Whether the field of an index of the model `m` exists.
    pub fn resolves(&self, m: &Model, location: &IndexFieldLocation) -> (r: bool)
        ensures
            r == self@.resolves(m@, location@),
    {
        match location {
            IndexFieldLocation::InCurrentModel { field_name } => m.has_field(field_name.as_str()),
            IndexFieldLocation::InCompositeType { composite_type_name, field_name, .. } => {
                match self.find_composite_type(composite_type_name.as_str()) {
                    Some(t) => t.has_field(field_name.as_str()),
                    None => false,
                }
            },
        }
    }

    fn indices_resolve(&self, m: &Model) -> (r: bool)
        ensures
            r == (forall|i: int, j: int|
                0 <= i < m@.indices.len() && 0 <= j < m@.indices[i].fields.len()
                    ==> self@.resolves(m@, #[trigger] m@.indices[i].fields[j].location)),
    {
        let mut i: usize = 0;
        while i < m.indices.len()
            invariant
                i <= m.indices.len(),
                forall|a: int, b: int|
                    0 <= a < i && 0 <= b < m@.indices[a].fields.len() ==> self@.resolves(
                        m@,
                        #[trigger] m@.indices[a].fields[b].location,
                    ),
            decreases m.indices.len() - i,
        {
            let index = &m.indices[i];
            let mut j: usize = 0;
            while j < index.fields.len()
                invariant
                    j <= index.fields.len(),
                    i < m.indices.len(),
                    *index == m.indices@[i as int],
                    forall|b: int|
                        0 <= b < j ==> self@.resolves(
                            m@,
                            #[trigger] m@.indices[i as int].fields[b].location,
                        ),
                decreases index.fields.len() - j,
            {
                if !self.resolves(m, &index.fields[j].location) {
                    assert(!self@.resolves(m@, m@.indices[i as int].fields[j as int].location));
                    return false;
                }
                j = j + 1;
            }
            i = i + 1;
        }
        true
    }

    fn primary_key_resolves(&self, m: &Model) -> (r: bool)
        ensures
            r == (m@.primary_key matches Some(pk) ==> forall|j: int|
                0 <= j < pk.fields.len() ==> m@.has_field((#[trigger] pk.fields[j]).name)),
    {
        match &m.primary_key {
            None => true,
            Some(pk) => {
                let mut j: usize = 0;
                while j < pk.fields.len()
                    invariant
                        j <= pk.fields.len(),
                        m@.primary_key == Some(pk@),
                        forall|b: int|
                            0 <= b < j ==> m@.has_field((#[trigger] pk@.fields[b]).name),
                    decreases pk.fields.len() - j,
                {
                    if !m.has_field(pk.fields[j].name.as_str()) {
                        assert(!m@.has_field(pk@.fields[j as int].name));
                        return false;
                    }
                    j = j + 1;
                }
                true
            },
        }
    }

    /// Whether what the indexes and the primary key of the model `m` refer
    /// to exists.
    pub fn model_resolves(&self, m: &Model) -> (r: bool)
        ensures
            r == self@.model_resolves(m@),
    {
        self.indices_resolve(m) && self.primary_key_resolves(m)
    }

    /// Whether no two models have the same name.
    pub fn has_unique_model_names(&self) -> (r: bool)
        ensures
            r == self@.model_names_unique(),
    {
        let mut j: usize = 0;
        while j < self.models.len()
            invariant
                j <= self.models.len(),
                forall|a: int, b: int|
                    0 <= a < b < j ==> (#[trigger] self@.models[a]).name != (
                    #[trigger] self@.models[b]).name,
            decreases self.models.len() - j,
        {
            let mut i: usize = 0;
            while i < j
                invariant
                    i <= j < self.models.len(),
                    forall|a: int|
                        0 <= a < i ==> (#[trigger] self@.models[a]).name
                            != self@.models[j as int].name,
                decreases j - i,
            {
                if str_eq(self.models[i].name.as_str(), self.models[j].name.as_str()) {
                    assert(self@.models[i as int].name == self@.models[j as int].name);
                    return false;
                }
                i = i + 1;
            }
            j = j + 1;
        }
        true
    }

    /// Whether the snapshot keeps its invariant.
    pub fn is_valid(&self) -> (r: bool)
        ensures
            r == self@.valid(),
    {
        if !self.has_unique_model_names() {
            return false;
        }
        let mut i: usize = 0;
        while i < self.models.len()
            invariant
                i <= self.models.len(),
                self@.model_names_unique(),
                forall|k: int|
                    0 <= k < i ==> (#[trigger] self@.models[k]).wf() && self@.model_resolves(
                        self@.models[k],
                    ),
            decreases self.models.len() - i,
        {
            if !(self.models[i].is_wf() && self.model_resolves(&self.models[i])) {
                assert(!(self@.models[i as int].wf() && self@.model_resolves(
                    self@.models[i as int],
                )));
                return false;
            }
            i = i + 1;
        }
        true
    }
}

} // verus!

//! Unique criteria: a primary key or a unique index of a model, seen through
//! the fields it resolves to, and the judgement whether it identifies a
//! record reliably.
//!
//! The fields of all models and of all composite types are kept in dense
//! arenas: a model, a composite type and a field are each named by a small
//! number, its position in the arena.

use crate::field::FieldArity;
use crate::seqs::any;
use vstd::prelude::*;

verus! {

/// The position of a model in the database.
#[derive(Clone, Copy, Debug, PartialEq, Eq, Structural)]
pub struct ModelId(pub u32);

/// The position of a composite type in the database.
#[derive(Clone, Copy, Debug, PartialEq, Eq, Structural)]
pub struct CompositeTypeId(pub u32);

/// The position of a field in its model or composite type.
#[derive(Clone, Copy, Debug, PartialEq, Eq, Structural)]
pub struct FieldId(pub u32);

/// What the resolver knows of a field: whether it may be absent, and whether
/// its type is one the schema language does not know.
#[derive(Clone, Copy, Debug, PartialEq, Eq, Structural)]
pub struct FieldFacts {
    pub arity: FieldArity,
    pub is_unsupported: bool,
}

impl FieldFacts {
    /// The field may be absent.
    pub open spec fn optional(self) -> bool {
        self.arity == FieldArity::Optional
    }
}

/// Where a field of a unique criteria lies.
#[derive(Clone, Copy, Debug, PartialEq, Eq, Structural)]
pub enum CriteriaFieldLocation {
    /// A scalar field of the model itself.
    InModel(FieldId),
    /// A field of a composite type embedded in the model.
    InCompositeType(CompositeTypeId, FieldId),
}

/// A field of a unique criteria, as it was declared.
#[derive(Clone, Copy, Debug, PartialEq, Eq, Structural)]
pub struct FieldWithArgs {
    pub field_location: CriteriaFieldLocation,
}

/// The fields of all models and composite types of one schema.
#[derive(Debug)]
pub struct ParserDatabase {
    /// For each model, the facts of its scalar fields; `None` at the position
    /// of a field that is not scalar.
    pub scalar_fields: Vec<Vec<Option<FieldFacts>>>,
    /// For each composite type, the facts of its fields.
    pub composite_type_fields: Vec<Vec<FieldFacts>>,
}

impl ParserDatabase {
    /// The facts of the field that `location` names in the model `model`, if
    /// there is such a field.
    pub open spec fn lookup(&self, model: ModelId, location: CriteriaFieldLocation) -> Option<
        FieldFacts,
    > {
        match location {
            CriteriaFieldLocation::InModel(field) => {
                if model.0 < self.scalar_fields@.len() && field.0
                    < self.scalar_fields@[model.0 as int]@.len() {
                    self.scalar_fields@[model.0 as int]@[field.0 as int]
                } else {
                    None
                }
            },
            CriteriaFieldLocation::InCompositeType(ctid, field) => {
                if ctid.0 < self.composite_type_fields@.len() && field.0
                    < self.composite_type_fields@[ctid.0 as int]@.len() {
                    Some(self.composite_type_fields@[ctid.0 as int]@[field.0 as int])
                } else {
                    None
                }
            },
        }
    }

    /// Every one of `fields` names a field of the model `model` or of a
    /// composite type.
    pub open spec fn resolves(&self, model: ModelId, fields: Seq<FieldWithArgs>) -> bool {
        forall|i: int|
            0 <= i < fields.len() ==> self.lookup(model, (#[trigger] fields[i]).field_location)
                is Some
    }

    /// An empty database.
    pub fn new() -> (r: Self)
        ensures
            r.scalar_fields@.len() == 0,
            r.composite_type_fields@.len() == 0,
    {
        ParserDatabase { scalar_fields: Vec::new(), composite_type_fields: Vec::new() }
    }

    /// The facts of the field that `location` names in the model `model`.
    pub fn find(&self, model: ModelId, location: CriteriaFieldLocation) -> (r: Option<FieldFacts>)
        ensures
            r == self.lookup(model, location),
    {
        match location {
            CriteriaFieldLocation::InModel(field) => {
                let m: usize = model.0 as usize;
                let f: usize = field.0 as usize;
                if m < self.scalar_fields.len() && f < self.scalar_fields[m].len() {
                    self.scalar_fields[m][f]
                } else {
                    None
                }
            },
            CriteriaFieldLocation::InCompositeType(ctid, field) => {
                let c: usize = ctid.0 as usize;
                let f: usize = field.0 as usize;
                if c < self.composite_type_fields.len() && f < self.composite_type_fields[c].len() {
                    Some(self.composite_type_fields[c][f])
                } else {
                    None
                }
            },
        }
    }

    /// The unique criteria that `fields` declare on the model `model_id`, if
    /// every one of them names a field of this database.
    pub fn unique_criteria<'db>(&'db self, model_id: ModelId, fields: &'db [FieldWithArgs]) -> (r:
        Option<UniqueCriteriaWalker<'db>>)
        ensures
            r is Some <==> self.resolves(model_id, fields@),
            r matches Some(w) ==> w.model_id() == model_id && w.declared() == fields@ && *w.db()
                == *self,
    {
        let mut i: usize = 0;
        while i < fields.len()
            invariant
                i <= fields.len(),
                forall|k: int|
                    0 <= k < i ==> self.lookup(model_id, (#[trigger] fields@[k]).field_location)
                        is Some,
            decreases fields.len() - i,
        {
            if self.find(model_id, fields[i].field_location).is_none() {
                return None;
            }
            i = i + 1;
        }
        Some(UniqueCriteriaWalker { model_id, fields, db: self })
    }
}

/// A scalar field of a model, seen in its database.
#[derive(Clone, Copy, Debug)]
pub struct ScalarFieldWalker<'db> {
    pub model_id: ModelId,
    pub field_id: FieldId,
    pub db: &'db ParserDatabase,
    pub scalar_field: &'db FieldFacts,
}

/// A field of a composite type, seen in its database.
#[derive(Clone, Copy, Debug)]
pub struct CompositeTypeFieldWalker<'db> {
    pub ctid: CompositeTypeId,
    pub field_id: FieldId,
    pub field: &'db FieldFacts,
    pub db: &'db ParserDatabase,
}

/// A field of an index or of a primary key: a scalar field of the model, or a
/// field of a composite type.
#[derive(Clone, Copy, Debug)]
pub enum IndexFieldWalker<'db> {
    Scalar(ScalarFieldWalker<'db>),
    Composite(CompositeTypeFieldWalker<'db>),
}

impl<'db> IndexFieldWalker<'db> {
    /// The facts of the field.
    pub open spec fn facts(self) -> FieldFacts {
        match self {
            IndexFieldWalker::Scalar(w) => *w.scalar_field,
            IndexFieldWalker::Composite(w) => *w.field,
        }
    }

    /// The database the field is seen in.
    pub open spec fn db(self) -> &'db ParserDatabase {
        match self {
            IndexFieldWalker::Scalar(w) => w.db,
            IndexFieldWalker::Composite(w) => w.db,
        }
    }

    /// Whether the field is a scalar field of the model `model`, or a field
    /// of a composite type.
    pub open spec fn belongs_to(self, model: ModelId) -> bool {
        match self {
            IndexFieldWalker::Scalar(w) => w.model_id == model,
            IndexFieldWalker::Composite(_) => true,
        }
    }

    /// Where the field lies.
    pub open spec fn location(self) -> CriteriaFieldLocation {
        match self {
            IndexFieldWalker::Scalar(w) => CriteriaFieldLocation::InModel(w.field_id),
            IndexFieldWalker::Composite(w) => CriteriaFieldLocation::InCompositeType(
                w.ctid,
                w.field_id,
            ),
        }
    }

    /// Whether the field may be absent.
    pub fn is_optional(self) -> (r: bool)
        ensures
            r == self.facts().optional(),
    {
        match self {
            IndexFieldWalker::Scalar(w) => w.scalar_field.arity.is_optional(),
            IndexFieldWalker::Composite(w) => w.field.arity.is_optional(),
        }
    }

    /// Whether the field has a type the schema language does not know.
    pub fn is_unsupported(self) -> (r: bool)
        ensures
            r == self.facts().is_unsupported,
    {
        match self {
            IndexFieldWalker::Scalar(w) => w.scalar_field.is_unsupported,
            IndexFieldWalker::Composite(w) => w.field.is_unsupported,
        }
    }
}

/// Fields that may be absent.
pub open spec fn optional() -> spec_fn(FieldFacts) -> bool {
    |f: FieldFacts| f.optional()
}

/// Fields of a type the schema language does not know.
pub open spec fn unsupported() -> spec_fn(FieldFacts) -> bool {
    |f: FieldFacts| f.is_unsupported
}

/// Describes any unique criteria in a model. Can either be a primary key, or
/// a unique index. Each of its fields names a field of the database.
#[derive(Clone, Copy, Debug)]
pub struct UniqueCriteriaWalker<'db> {
    model_id: ModelId,
    fields: &'db [FieldWithArgs],
    db: &'db ParserDatabase,
}

impl<'db> UniqueCriteriaWalker<'db> {
    #[verifier::type_invariant]
    spec fn inv(self) -> bool {
        self.db.resolves(self.model_id, self.fields@)
    }

    /// The model that owns the criteria.
    pub closed spec fn model_id(self) -> ModelId {
        self.model_id
    }

    /// The fields as they were declared.
    pub closed spec fn declared(self) -> Seq<FieldWithArgs> {
        self.fields@
    }

    /// The database the criteria is seen in.
    pub closed spec fn db(self) -> &'db ParserDatabase {
        self.db
    }

    /// The facts of the fields of the criteria, in the order of their
    /// declaration.
    pub open spec fn facts(self) -> Seq<FieldFacts> {
        Seq::new(
            self.declared().len(),
            |i: int| self.db().lookup(self.model_id(), self.declared()[i].field_location)->0,
        )
    }

    /// The fields of the criteria, each resolved in the database: a scalar
    /// field of the model, or a field of a composite type.
    pub fn fields(self) -> (r: Vec<IndexFieldWalker<'db>>)
        ensures
            r@.len() == self.declared().len(),
            forall|i: int|
                0 <= i < r@.len() ==> {
                    &&& (#[trigger] r@[i]).location() == self.declared()[i].field_location
                    &&& r@[i].facts() == self.facts()[i]
                    &&& r@[i].belongs_to(self.model_id())
                    &&& r@[i].db() == self.db()
                },
    {
        proof {
            use_type_invariant(&self);
        }
        let mut out: Vec<IndexFieldWalker<'db>> = Vec::new();
        let mut i: usize = 0;
        while i < self.fields.len()
            invariant
                i <= self.fields.len(),
                out@.len() == i,
                self.db.resolves(self.model_id, self.fields@),
                forall|k: int|
                    0 <= k < i ==> {
                        &&& (#[trigger] out@[k]).location() == self.fields@[k].field_location
                        &&& Some(out@[k].facts()) == self.db.lookup(
                            self.model_id,
                            self.fields@[k].field_location,
                        )
                        &&& out@[k].belongs_to(self.model_id)
                        &&& out@[k].db() == self.db
                    },
            decreases self.fields.len() - i,
        {
            let field = &self.fields[i];
            assert(self.db.lookup(self.model_id, self.fields@[i as int].field_location) is Some);
            let walker = match field.field_location {
                CriteriaFieldLocation::InModel(field_id) => {
                    let of_model = &self.db.scalar_fields[self.model_id.0 as usize];
                    let scalar_field = match &of_model[field_id.0 as usize] {
                        Some(facts) => facts,
                        None => vstd::pervasive::unreached(),
                    };
                    IndexFieldWalker::Scalar(
                        ScalarFieldWalker {
                            model_id: self.model_id,
                            field_id,
                            db: self.db,
                            scalar_field,
                        },
                    )
                },
                CriteriaFieldLocation::InCompositeType(ctid, field_id) => {
                    IndexFieldWalker::Composite(
                        CompositeTypeFieldWalker {
                            ctid,
                            field_id,
                            field: &self.db.composite_type_fields[ctid.0 as usize][field_id.0
                                as usize],
                            db: self.db,
                        },
                    )
                },
            };
            out.push(walker);
            i = i + 1;
        }
        out
    }

    /// Whether some field of the criteria may be absent.
    pub fn has_optional_fields(self) -> (r: bool)
        ensures
            r == any(self.facts(), optional()),
    {
        let fields = self.fields();
        let mut i: usize = 0;
        while i < fields.len()
            invariant
                i <= fields.len(),
                fields@.len() == self.facts().len(),
                forall|k: int|
                    0 <= k < fields@.len() ==> (#[trigger] fields@[k]).facts() == self.facts()[k],
                forall|k: int| 0 <= k < i ==> !optional()(#[trigger] self.facts()[k]),
            decreases fields.len() - i,
        {
            if fields[i].is_optional() {
                assert(optional()(self.facts()[i as int]));
                return true;
            }
            i = i + 1;
        }
        false
    }

    /// Whether some field of the criteria has a type the schema language does
    /// not know.
    pub fn has_unsupported_fields(self) -> (r: bool)
        ensures
            r == any(self.facts(), unsupported()),
    {
        let fields = self.fields();
        let mut i: usize = 0;
        while i < fields.len()
            invariant
                i <= fields.len(),
                fields@.len() == self.facts().len(),
                forall|k: int|
                    0 <= k < fields@.len() ==> (#[trigger] fields@[k]).facts() == self.facts()[k],
                forall|k: int| 0 <= k < i ==> !unsupported()(#[trigger] self.facts()[k]),
            decreases fields.len() - i,
        {
            if fields[i].is_unsupported() {
                assert(unsupported()(self.facts()[i as int]));
                return true;
            }
            i = i + 1;
        }
        false
    }

    /// Whether the criteria identifies a record reliably: none of its fields
    /// may be absent, and none has a type the schema language does not know.
    pub fn is_strict_criteria(self) -> (r: bool)
        ensures
            r == (forall|i: int|
                0 <= i < self.facts().len() ==> !(#[trigger] self.facts()[i]).optional()
                    && !self.facts()[i].is_unsupported),
    {
        let r = !self.has_optional_fields() && !self.has_unsupported_fields();
        proof {
            if r {
                assert forall|i: int| 0 <= i < self.facts().len() implies !(
                #[trigger] self.facts()[i]).optional() && !self.facts()[i].is_unsupported by {
                    assert(!optional()(self.facts()[i]));
                    assert(!unsupported()(self.facts()[i]));
                }
            } else if any(self.facts(), optional()) {
                let w = choose|i: int|
                    0 <= i < self.facts().len() && optional()(#[trigger] self.facts()[i]);
                assert(self.facts()[w].optional());
            } else {
                let w = choose|i: int|
                    0 <= i < self.facts().len() && unsupported()(#[trigger] self.facts()[i]);
                assert(self.facts()[w].is_unsupported);
            }
        }
        r
    }
}

} // verus!

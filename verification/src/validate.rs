//! The validation of index declarations: every field that an index is
//! declared on must exist, in the model or, along a path through composite
//! fields, in a composite type.
//!
//! Each declaration is validated by itself: an unknown field in one does not
//! keep the others from being reported.

use crate::index::{
    IndexAlgorithm, IndexDefinition, IndexDefinitionView, IndexField, IndexFieldLocation,
    IndexFieldLocationView, IndexFieldView, IndexType, SortOrder,
};
use crate::model::{Model, ModelView};
use crate::schema::{Datamodel, DatamodelView};
use crate::seqs::{lemma_flat_map_nothing, lemma_flat_map_step, opt_view, views};
use crate::text::opt_str_clone;
use vstd::prelude::*;
use vstd::string::StringExecFns;

verus! {

/// A field of an index as it is declared: the names that lead to it, the
/// first a field of the model and each further one a field of the composite
/// type of the one before.
#[derive(Debug)]
pub struct FieldPath {
    pub segments: Vec<String>,
    pub sort_order: Option<SortOrder>,
    pub length: Option<u32>,
}

/// The mathematical content of a [`FieldPath`].
pub ghost struct FieldPathView {
    pub segments: Seq<Seq<char>>,
    pub sort_order: Option<SortOrder>,
    pub length: Option<u32>,
}

impl View for FieldPath {
    type V = FieldPathView;

    open spec fn view(&self) -> FieldPathView {
        FieldPathView {
            segments: views(self.segments@),
            sort_order: self.sort_order,
            length: self.length,
        }
    }
}

impl FieldPath {
    /// The path of one name: a field of the model itself.
    pub fn new(name: &str) -> (r: Self)
        ensures
            r@ == (FieldPathView { segments: seq![name@], sort_order: None, length: None }),
    {
        let mut segments: Vec<String> = Vec::new();
        segments.push(name.to_owned());
        let r = FieldPath { segments, sort_order: None, length: None };
        assert(r@.segments =~= seq![name@]);
        r
    }

    /// The path with one more name at its end.
    pub fn then(self, name: &str) -> (r: Self)
        ensures
            r@ == (FieldPathView { segments: self@.segments.push(name@), ..self@ }),
    {
        let mut segments = self.segments;
        segments.push(name.to_owned());
        let r = FieldPath { segments, sort_order: self.sort_order, length: self.length };
        assert(r@.segments =~= self@.segments.push(name@));
        r
    }
}

/// An index as it is declared.
#[derive(Debug)]
pub struct IndexDeclaration {
    pub name: Option<String>,
    pub db_name: Option<String>,
    pub fields: Vec<FieldPath>,
    pub tpe: IndexType,
    pub algorithm: Option<IndexAlgorithm>,
    pub defined_on_field: bool,
}

/// The mathematical content of an [`IndexDeclaration`].
pub ghost struct IndexDeclarationView {
    pub name: Option<Seq<char>>,
    pub db_name: Option<Seq<char>>,
    pub fields: Seq<FieldPathView>,
    pub tpe: IndexType,
    pub algorithm: Option<IndexAlgorithm>,
    pub defined_on_field: bool,
}

impl View for IndexDeclaration {
    type V = IndexDeclarationView;

    open spec fn view(&self) -> IndexDeclarationView {
        IndexDeclarationView {
            name: opt_view(self.name),
            db_name: opt_view(self.db_name),
            fields: views(self.fields@),
            tpe: self.tpe,
            algorithm: self.algorithm,
            defined_on_field: self.defined_on_field,
        }
    }
}

impl IndexDeclaration {
    /// The declaration of an index of the given type on the given paths,
    /// without a name, for the model as a whole.
    pub fn new(tpe: IndexType, fields: Vec<FieldPath>) -> (r: Self)
        ensures
            r@ == (IndexDeclarationView {
                name: None,
                db_name: None,
                fields: views(fields@),
                tpe,
                algorithm: None,
                defined_on_field: false,
            }),
    {
        IndexDeclaration {
            name: None,
            db_name: None,
            fields,
            tpe,
            algorithm: None,
            defined_on_field: false,
        }
    }
}

/// A name that a path uses and that names no field: of the model, or of the
/// composite type `in_type`.
#[derive(Debug, PartialEq)]
pub struct UnknownField {
    pub name: String,
    pub in_type: Option<String>,
}

/// The mathematical content of an [`UnknownField`].
pub ghost struct UnknownFieldView {
    pub name: Seq<char>,
    pub in_type: Option<Seq<char>>,
}

impl UnknownFieldView {
    /// The unknown field in words: its name, and the type it was looked for
    /// in, where that was a composite type.
    pub open spec fn text(self) -> Seq<char> {
        match self.in_type {
            Some(t) => self.name + " in type "@ + t,
            None => self.name,
        }
    }
}

impl View for UnknownField {
    type V = UnknownFieldView;

    open spec fn view(&self) -> UnknownFieldView {
        UnknownFieldView { name: self.name@, in_type: opt_view(self.in_type) }
    }
}

impl UnknownField {
    fn text(&self) -> (r: String)
        ensures
            r@ == self@.text(),
    {
        let mut out = self.name.clone();
        if let Some(t) = &self.in_type {
            out.append(" in type ");
            out.append(t.as_str());
        }
        out
    }
}

/// The names of `segments` up to the `n`-th, with a dot between each two.
pub open spec fn joined_first(segments: Seq<Seq<char>>, n: nat) -> Seq<char>
    decreases n,
{
    if n == 0 {
        Seq::empty()
    } else if n == 1 {
        segments[0]
    } else {
        joined_first(segments, (n - 1) as nat) + seq!['.'] + segments[n - 1]
    }
}

/// The names of `segments` with a dot between each two.
pub open spec fn joined(segments: Seq<Seq<char>>) -> Seq<char> {
    joined_first(segments, segments.len())
}

/// Where the names of `segments` from the `k`-th on lead to, looked up in
/// the composite type `holder`: the composite type and the field that the
/// last name is found in, or the first name that is not found. A name is not
/// found where the snapshot has no such composite type, where the type has
/// no such field, or where the field before it is not of a composite type.
pub open spec fn resolve_in_type(
    d: DatamodelView,
    holder: Seq<char>,
    segments: Seq<Seq<char>>,
    k: int,
) -> Result<(Seq<char>, Seq<char>), UnknownFieldView>
    decreases segments.len() - k,
{
    if k < 0 || k >= segments.len() {
        Err(UnknownFieldView { name: Seq::empty(), in_type: Some(holder) })
    } else {
        match d.find_composite_type(holder) {
            None => Err(UnknownFieldView { name: segments[k], in_type: Some(holder) }),
            Some(t) => match t.find_field(segments[k]) {
                None => Err(UnknownFieldView { name: segments[k], in_type: Some(holder) }),
                Some(f) => if k + 1 == segments.len() {
                    Ok((holder, segments[k]))
                } else {
                    match f.field_type.composite_type_name() {
                        Some(inner) => resolve_in_type(d, inner, segments, k + 1),
                        None => Err(UnknownFieldView { name: segments[k + 1], in_type: None }),
                    }
                },
            },
        }
    }
}

/// The field of a composite type as the field of an index, reached by the
/// path `segments`.
pub open spec fn located(
    found: Result<(Seq<char>, Seq<char>), UnknownFieldView>,
    segments: Seq<Seq<char>>,
) -> Result<IndexFieldLocationView, UnknownFieldView> {
    match found {
        Ok((composite_type_name, field_name)) => Ok(
            IndexFieldLocationView::InCompositeType {
                composite_type_name,
                field_name,
                full_path: joined(segments),
            },
        ),
        Err(u) => Err(u),
    }
}

/// Where a path leads to from the model `m`: a field of the model, where
/// the path is one name; else a field of a composite type. Or the first of
/// its names that is not found. An empty path names the field without a
/// name, which no model has.
pub open spec fn resolve(d: DatamodelView, m: ModelView, segments: Seq<Seq<char>>) -> Result<
    IndexFieldLocationView,
    UnknownFieldView,
> {
    if segments.len() == 0 {
        Err(UnknownFieldView { name: Seq::empty(), in_type: None })
    } else {
        match m.find_field(segments[0]) {
            None => Err(UnknownFieldView { name: segments[0], in_type: None }),
            Some(f) => if segments.len() == 1 {
                Ok(IndexFieldLocationView::InCurrentModel { field_name: segments[0] })
            } else {
                match f.field_type.composite_type_name() {
                    None => Err(UnknownFieldView { name: segments[1], in_type: None }),
                    Some(t) => located(resolve_in_type(d, t, segments, 1), segments),
                }
            },
        }
    }
}

/// The name of a path that is not found, if there is one.
pub open spec fn unknown_in(d: DatamodelView, m: ModelView) -> spec_fn(FieldPathView) -> Seq<
    UnknownFieldView,
> {
    |p: FieldPathView|
        match resolve(d, m, p.segments) {
            Ok(_) => Seq::empty(),
            Err(u) => seq![u],
        }
}

/// The field of an index that a path declares, if all its names are found.
pub open spec fn field_in(d: DatamodelView, m: ModelView) -> spec_fn(FieldPathView) -> Seq<
    IndexFieldView,
> {
    |p: FieldPathView|
        match resolve(d, m, p.segments) {
            Ok(location) => seq![
                IndexFieldView { location, sort_order: p.sort_order, length: p.length },
            ],
            Err(_) => Seq::empty(),
        }
}

/// Why an index declaration is not valid: the names that its paths use and
/// that name no field.
#[derive(Debug, PartialEq)]
pub struct ValidationError {
    pub model: String,
    pub tpe: IndexType,
    pub unknown_fields: Vec<UnknownField>,
}

/// The mathematical content of a [`ValidationError`].
pub ghost struct ValidationErrorView {
    pub model: Seq<char>,
    pub tpe: IndexType,
    pub unknown_fields: Seq<UnknownFieldView>,
}

/// The first `n` of the unknown fields in words, with a comma and a blank
/// between each two.
pub open spec fn listed_first(unknown: Seq<UnknownFieldView>, n: nat) -> Seq<char>
    decreases n,
{
    if n == 0 {
        Seq::empty()
    } else if n == 1 {
        unknown[0].text()
    } else {
        listed_first(unknown, (n - 1) as nat) + ", "@ + unknown[n - 1].text()
    }
}

/// What kind of definition an index of the given type is called.
pub open spec fn definition_name(tpe: IndexType) -> Seq<char> {
    if tpe == IndexType::Unique {
        "unique index"@
    } else {
        "index"@
    }
}

impl ValidationErrorView {
    /// The error in words.
    pub open spec fn message(self) -> Seq<char> {
        "Error validating model \""@ + self.model + "\": The "@ + definition_name(self.tpe)
            + " definition refers to the unknown fields: "@ + listed_first(
            self.unknown_fields,
            self.unknown_fields.len(),
        ) + "."@
    }
}

impl View for ValidationError {
    type V = ValidationErrorView;

    open spec fn view(&self) -> ValidationErrorView {
        ValidationErrorView {
            model: self.model@,
            tpe: self.tpe,
            unknown_fields: views(self.unknown_fields@),
        }
    }
}

impl ValidationError {
    /// The error in words: the model, the kind of definition, and the
    /// unknown fields.
    pub fn message(&self) -> (r: String)
        ensures
            r@ == self@.message(),
    {
        let mut list = String::new();
        let mut i: usize = 0;
        while i < self.unknown_fields.len()
            invariant
                i <= self.unknown_fields.len(),
                list@ == listed_first(self@.unknown_fields, i as nat),
            decreases self.unknown_fields.len() - i,
        {
            if i > 0 {
                list.append(", ");
            }
            list.append(self.unknown_fields[i].text().as_str());
            assert(list@ =~= listed_first(self@.unknown_fields, (i + 1) as nat));
            i = i + 1;
        }
        let mut out = String::from_str("Error validating model \"");
        out.append(self.model.as_str());
        out.append("\": The ");
        if self.tpe == IndexType::Unique {
            out.append("unique index");
        } else {
            out.append("index");
        }
        out.append(" definition refers to the unknown fields: ");
        out.append(list.as_str());
        out.append(".");
        out
    }
}

/// What a declaration of an index for the model `m` comes to: the index,
/// where every name of every path is found; else the error that lists, in
/// the order of the paths, the first name of each path that is not found.
pub open spec fn validated(d: DatamodelView, m: ModelView, decl: IndexDeclarationView) -> Result<
    IndexDefinitionView,
    ValidationErrorView,
> {
    if decl.fields.flat_map(unknown_in(d, m)).len() == 0 {
        Ok(
            IndexDefinitionView {
                name: decl.name,
                db_name: decl.db_name,
                fields: decl.fields.flat_map(field_in(d, m)),
                tpe: decl.tpe,
                algorithm: decl.algorithm,
                defined_on_field: decl.defined_on_field,
            },
        )
    } else {
        Err(
            ValidationErrorView {
                model: m.name,
                tpe: decl.tpe,
                unknown_fields: decl.fields.flat_map(unknown_in(d, m)),
            },
        )
    }
}

/// The error of a declaration, if it has one.
pub open spec fn error_of(d: DatamodelView, m: ModelView) -> spec_fn(IndexDeclarationView) -> Seq<
    ValidationErrorView,
> {
    |decl: IndexDeclarationView|
        match validated(d, m, decl) {
            Ok(_) => Seq::empty(),
            Err(e) => seq![e],
        }
}

/// The index of a declaration, if it is valid.
pub open spec fn index_of(d: DatamodelView, m: ModelView) -> spec_fn(IndexDeclarationView) -> Seq<
    IndexDefinitionView,
> {
    |decl: IndexDeclarationView|
        match validated(d, m, decl) {
            Ok(i) => seq![i],
            Err(_) => Seq::empty(),
        }
}

/// What the declarations of the indexes of the model `m` come to: the
/// indexes, where every declaration is valid; else the errors of all
/// declarations that are not, in the order of the declarations.
pub open spec fn validated_all(
    d: DatamodelView,
    m: ModelView,
    decls: Seq<IndexDeclarationView>,
) -> Result<Seq<IndexDefinitionView>, Seq<ValidationErrorView>> {
    if decls.flat_map(error_of(d, m)).len() == 0 {
        Ok(decls.flat_map(index_of(d, m)))
    } else {
        Err(decls.flat_map(error_of(d, m)))
    }
}

fn join(segments: &Vec<String>) -> (r: String)
    ensures
        r@ == joined(views(segments@)),
{
    let mut out = String::new();
    let mut i: usize = 0;
    while i < segments.len()
        invariant
            i <= segments.len(),
            out@ == joined_first(views(segments@), i as nat),
        decreases segments.len() - i,
    {
        if i > 0 {
            proof {
                reveal_strlit(".");
            }
            out.append(".");
        }
        out.append(segments[i].as_str());
        assert(out@ =~= joined_first(views(segments@), (i + 1) as nat));
        i = i + 1;
    }
    out
}

fn unknown(name: &str, in_type: Option<&str>) -> (r: UnknownField)
    ensures
        r@ == (UnknownFieldView { name: name@, in_type: opt_view(in_type) }),
{
    UnknownField {
        name: name.to_owned(),
        in_type: match in_type {
            Some(t) => Some(t.to_owned()),
            None => None,
        },
    }
}

/// Where the path `segments` leads to from the model `m` of the snapshot
/// `d`, or the first of its names that is not found.
pub fn resolve_path(d: &Datamodel, m: &Model, segments: &Vec<String>) -> (r: Result<
    IndexFieldLocation,
    UnknownField,
>)
    ensures
        match r {
            Ok(location) => resolve(d@, m@, views(segments@)) == Ok::<
                IndexFieldLocationView,
                UnknownFieldView,
            >(location@),
            Err(u) => resolve(d@, m@, views(segments@)) == Err::<
                IndexFieldLocationView,
                UnknownFieldView,
            >(u@),
        },
{
    let n = segments.len();
    if n == 0 {
        let u = UnknownField { name: String::new(), in_type: None };
        return Err(u);
    }
    let start = match m.find_field(segments[0].as_str()) {
        Some(f) => f,
        None => {
            return Err(unknown(segments[0].as_str(), None));
        },
    };
    if n == 1 {
        return Ok(IndexFieldLocation::InCurrentModel { field_name: segments[0].clone() });
    }
    let mut holder: &str = match start.composite_type_name() {
        Some(t) => t,
        None => {
            return Err(unknown(segments[1].as_str(), None));
        },
    };
    let mut k: usize = 1;
    loop
        invariant
            1 <= k < n,
            n == segments@.len(),
            resolve(d@, m@, views(segments@)) == located(
                resolve_in_type(d@, holder@, views(segments@), k as int),
                views(segments@),
            ),
        decreases n - k,
    {
        let name = segments[k].as_str();
        let t = match d.find_composite_type(holder) {
            Some(t) => t,
            None => {
                return Err(unknown(name, Some(holder)));
            },
        };
        let f = match t.find_field(name) {
            Some(f) => f,
            None => {
                return Err(unknown(name, Some(holder)));
            },
        };
        if k + 1 == n {
            return Ok(
                IndexFieldLocation::InCompositeType {
                    composite_type_name: holder.to_owned(),
                    field_name: name.to_owned(),
                    full_path: join(segments),
                },
            );
        }
        holder = match f.composite_type_name() {
            Some(inner) => inner,
            None => {
                return Err(unknown(segments[k + 1].as_str(), None));
            },
        };
        k = k + 1;
    }
}

/// Validates the declaration of an index for the model `m` of the snapshot
/// `d`.
pub fn validate_index(d: &Datamodel, m: &Model, decl: &IndexDeclaration) -> (r: Result<
    IndexDefinition,
    ValidationError,
>)
    ensures
        match r {
            Ok(index) => validated(d@, m@, decl@) == Ok::<
                IndexDefinitionView,
                ValidationErrorView,
            >(index@),
            Err(e) => validated(d@, m@, decl@) == Err::<IndexDefinitionView, ValidationErrorView>(
                e@,
            ),
        },
{
    let mut fields: Vec<IndexField> = Vec::new();
    let mut unknown_fields: Vec<UnknownField> = Vec::new();
    let mut i: usize = 0;
    proof {
        lemma_flat_map_nothing(decl@.fields.take(0), unknown_in(d@, m@));
        lemma_flat_map_nothing(decl@.fields.take(0), field_in(d@, m@));
        assert(views(fields@) =~= Seq::<IndexFieldView>::empty());
        assert(views(unknown_fields@) =~= Seq::<UnknownFieldView>::empty());
        assert(decl@.fields.take(decl@.fields.len() as int) =~= decl@.fields);
    }
    while i < decl.fields.len()
        invariant
            i <= decl.fields.len(),
            views(fields@) == decl@.fields.take(i as int).flat_map(field_in(d@, m@)),
            views(unknown_fields@) == decl@.fields.take(i as int).flat_map(unknown_in(d@, m@)),
        decreases decl.fields.len() - i,
    {
        proof {
            lemma_flat_map_step(decl@.fields, unknown_in(d@, m@), i as int);
            lemma_flat_map_step(decl@.fields, field_in(d@, m@), i as int);
        }
        let path = &decl.fields[i];
        let ghost found = views(fields@);
        let ghost missing = views(unknown_fields@);
        match resolve_path(d, m, &path.segments) {
            Ok(location) => {
                let field = IndexField {
                    location,
                    sort_order: path.sort_order,
                    length: path.length,
                };
                fields.push(field);
                assert(views(fields@) =~= found + seq![field@]);
                assert(missing + Seq::<UnknownFieldView>::empty() =~= missing);
            },
            Err(u) => {
                unknown_fields.push(u);
                assert(views(unknown_fields@) =~= missing + seq![u@]);
                assert(found + Seq::<IndexFieldView>::empty() =~= found);
            },
        }
        i = i + 1;
    }
    assert(decl@.fields.take(i as int) =~= decl@.fields);
    if unknown_fields.len() == 0 {
        Ok(
            IndexDefinition {
                name: opt_str_clone(&decl.name),
                db_name: opt_str_clone(&decl.db_name),
                fields,
                tpe: decl.tpe,
                algorithm: decl.algorithm,
                defined_on_field: decl.defined_on_field,
            },
        )
    } else {
        Err(ValidationError { model: m.name.clone(), tpe: decl.tpe, unknown_fields })
    }
}

/// Validates the declarations of the indexes of the model `m` of the
/// snapshot `d`, each by itself.
pub fn validate_indexes(d: &Datamodel, m: &Model, decls: &Vec<IndexDeclaration>) -> (r: Result<
    Vec<IndexDefinition>,
    Vec<ValidationError>,
>)
    ensures
        match r {
            Ok(indexes) => validated_all(d@, m@, views(decls@)) == Ok::<
                Seq<IndexDefinitionView>,
                Seq<ValidationErrorView>,
            >(views(indexes@)),
            Err(errors) => validated_all(d@, m@, views(decls@)) == Err::<
                Seq<IndexDefinitionView>,
                Seq<ValidationErrorView>,
            >(views(errors@)),
        },
{
    let mut indexes: Vec<IndexDefinition> = Vec::new();
    let mut errors: Vec<ValidationError> = Vec::new();
    let mut i: usize = 0;
    proof {
        lemma_flat_map_nothing(views(decls@).take(0), error_of(d@, m@));
        lemma_flat_map_nothing(views(decls@).take(0), index_of(d@, m@));
        assert(views(indexes@) =~= Seq::<IndexDefinitionView>::empty());
        assert(views(errors@) =~= Seq::<ValidationErrorView>::empty());
        assert(views(decls@).take(views(decls@).len() as int) =~= views(decls@));
    }
    while i < decls.len()
        invariant
            i <= decls.len(),
            views(indexes@) == views(decls@).take(i as int).flat_map(index_of(d@, m@)),
            views(errors@) == views(decls@).take(i as int).flat_map(error_of(d@, m@)),
        decreases decls.len() - i,
    {
        proof {
            lemma_flat_map_step(views(decls@), error_of(d@, m@), i as int);
            lemma_flat_map_step(views(decls@), index_of(d@, m@), i as int);
        }
        let ghost valid = views(indexes@);
        let ghost invalid = views(errors@);
        match validate_index(d, m, &decls[i]) {
            Ok(index) => {
                indexes.push(index);
                assert(views(indexes@) =~= valid + seq![index@]);
                assert(invalid + Seq::<ValidationErrorView>::empty() =~= invalid);
            },
            Err(e) => {
                errors.push(e);
                assert(views(errors@) =~= invalid + seq![e@]);
                assert(valid + Seq::<IndexDefinitionView>::empty() =~= valid);
            },
        }
        i = i + 1;
    }
    assert(views(decls@).take(i as int) =~= views(decls@));
    if errors.len() == 0 {
        Ok(indexes)
    } else {
        Err(errors)
    }
}

} // verus!

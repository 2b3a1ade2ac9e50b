//! Indexes and primary keys of a model.

use crate::field::opt_u32_eq;
use crate::seqs::{opt_view, views};
use crate::text::{opt_str_clone, opt_str_eq, push_decimal, str_eq, decimal};
use vstd::prelude::*;
use vstd::std_specs::cmp::PartialEqSpecImpl;
use vstd::string::StringExecFns;

verus! {

/// The algorithm an index is built with.
#[derive(Clone, Copy, Debug, PartialEq, Eq, Structural)]
pub enum IndexAlgorithm {
    BTree,
    Hash,
}

impl Default for IndexAlgorithm {
    fn default() -> (r: Self)
        ensures
            r == IndexAlgorithm::BTree,
    {
        IndexAlgorithm::BTree
    }
}

/// What an index is for.
#[derive(Clone, Copy, Debug, PartialEq, Eq, Structural)]
pub enum IndexType {
    Unique,
    Normal,
    Fulltext,
}

impl IndexType {
    /// Whether this is the type of a full-text index.
    pub fn is_fulltext(self) -> (r: bool)
        ensures
            r == (self == IndexType::Fulltext),
    {
        self == IndexType::Fulltext
    }
}

/// The order in which an index or key sorts a field.
#[derive(Clone, Copy, Debug, PartialEq, Eq, Structural)]
pub enum SortOrder {
    Asc,
    Desc,
}

impl SortOrder {
    /// The text of the sort order, as a schema shows it.
    pub open spec fn text(self) -> Seq<char> {
        match self {
            SortOrder::Asc => "sort: Asc"@,
            SortOrder::Desc => "sort: Desc"@,
        }
    }

    fn as_str(self) -> (r: &'static str)
        ensures
            r@ == self.text(),
    {
        match self {
            SortOrder::Asc => "sort: Asc",
            SortOrder::Desc => "sort: Desc",
        }
    }

    /// The sort order as text: `sort: Asc` or `sort: Desc`.
    pub fn to_string(&self) -> (r: String)
        ensures
            r@ == self.text(),
    {
        String::from_str(self.as_str())
    }
}

/// Where the field of an index lies: in the model that owns the index, or in a
/// composite type embedded in that model.
#[derive(Debug)]
pub enum IndexFieldLocation {
    InCurrentModel { field_name: String },
    InCompositeType { composite_type_name: String, field_name: String, full_path: String },
}

/// The mathematical content of an [`IndexFieldLocation`].
pub ghost enum IndexFieldLocationView {
    InCurrentModel { field_name: Seq<char> },
    InCompositeType { composite_type_name: Seq<char>, field_name: Seq<char>, full_path: Seq<char> },
}

impl View for IndexFieldLocation {
    type V = IndexFieldLocationView;

    open spec fn view(&self) -> IndexFieldLocationView {
        match *self {
            IndexFieldLocation::InCurrentModel { field_name } => {
                IndexFieldLocationView::InCurrentModel { field_name: field_name@ }
            },
            IndexFieldLocation::InCompositeType { composite_type_name, field_name, full_path } => {
                IndexFieldLocationView::InCompositeType {
                    composite_type_name: composite_type_name@,
                    field_name: field_name@,
                    full_path: full_path@,
                }
            },
        }
    }
}

impl IndexFieldLocationView {
    /// Whether this is the field `name` of the model that owns the index.
    pub open spec fn is_model_field(self, name: Seq<char>) -> bool {
        self == (IndexFieldLocationView::InCurrentModel { field_name: name })
    }
}

impl IndexFieldLocation {
    /// Whether this is the field `name` of the model that owns the index.
    pub fn is_model_field(&self, name: &str) -> (r: bool)
        ensures
            r == self@.is_model_field(name@),
    {
        match self {
            IndexFieldLocation::InCurrentModel { field_name } => str_eq(field_name.as_str(), name),
            IndexFieldLocation::InCompositeType { .. } => false,
        }
    }
}

impl Clone for IndexFieldLocation {
    fn clone(&self) -> (r: Self)
        ensures
            r@ == self@,
    {
        match self {
            IndexFieldLocation::InCurrentModel { field_name } => {
                IndexFieldLocation::InCurrentModel { field_name: field_name.clone() }
            },
            IndexFieldLocation::InCompositeType { composite_type_name, field_name, full_path } => {
                IndexFieldLocation::InCompositeType {
                    composite_type_name: composite_type_name.clone(),
                    field_name: field_name.clone(),
                    full_path: full_path.clone(),
                }
            },
        }
    }
}

impl PartialEq for IndexFieldLocation {
    fn eq(&self, other: &Self) -> (r: bool) {
        match (self, other) {
            (
                IndexFieldLocation::InCurrentModel { field_name: a },
                IndexFieldLocation::InCurrentModel { field_name: b },
            ) => str_eq(a.as_str(), b.as_str()),
            (
                IndexFieldLocation::InCompositeType {
                    composite_type_name: type_a,
                    field_name: field_a,
                    full_path: path_a,
                },
                IndexFieldLocation::InCompositeType {
                    composite_type_name: type_b,
                    field_name: field_b,
                    full_path: path_b,
                },
            ) => str_eq(type_a.as_str(), type_b.as_str()) && str_eq(
                field_a.as_str(),
                field_b.as_str(),
            ) && str_eq(path_a.as_str(), path_b.as_str()),
            _ => false,
        }
    }
}

impl PartialEqSpecImpl for IndexFieldLocation {
    open spec fn obeys_eq_spec() -> bool {
        true
    }

    open spec fn eq_spec(&self, other: &Self) -> bool {
        self@ == other@
    }
}

/// A field of an index, with an optional sort order and length limit.
#[derive(Debug)]
pub struct IndexField {
    pub location: IndexFieldLocation,
    pub sort_order: Option<SortOrder>,
    pub length: Option<u32>,
}

/// The mathematical content of an [`IndexField`].
pub ghost struct IndexFieldView {
    pub location: IndexFieldLocationView,
    pub sort_order: Option<SortOrder>,
    pub length: Option<u32>,
}

impl View for IndexField {
    type V = IndexFieldView;

    open spec fn view(&self) -> IndexFieldView {
        IndexFieldView {
            location: self.location@,
            sort_order: self.sort_order,
            length: self.length,
        }
    }
}

impl IndexField {
    /// The field `name` of the model itself, without sort order or length.
    pub fn new_in_model(name: &str) -> (r: Self)
        ensures
            r@ == (IndexFieldView {
                location: IndexFieldLocationView::InCurrentModel { field_name: name@ },
                sort_order: None,
                length: None,
            }),
    {
        IndexField {
            location: IndexFieldLocation::InCurrentModel { field_name: name.to_owned() },
            sort_order: None,
            length: None,
        }
    }

    /// The field `field_name` of the composite type `composite_type_name`,
    /// reached from the model by `full_path`.
    pub fn new_in_composite_type(
        composite_type_name: &str,
        field_name: &str,
        full_path: &str,
    ) -> (r: Self)
        ensures
            r@ == (IndexFieldView {
                location: IndexFieldLocationView::InCompositeType {
                    composite_type_name: composite_type_name@,
                    field_name: field_name@,
                    full_path: full_path@,
                },
                sort_order: None,
                length: None,
            }),
    {
        IndexField {
            location: IndexFieldLocation::InCompositeType {
                composite_type_name: composite_type_name.to_owned(),
                field_name: field_name.to_owned(),
                full_path: full_path.to_owned(),
            },
            sort_order: None,
            length: None,
        }
    }
}

fn opt_sort_eq(a: Option<SortOrder>, b: Option<SortOrder>) -> (r: bool)
    ensures
        r == (a == b),
{
    match (a, b) {
        (Some(x), Some(y)) => x == y,
        (None, None) => true,
        _ => false,
    }
}

fn opt_algorithm_eq(a: Option<IndexAlgorithm>, b: Option<IndexAlgorithm>) -> (r: bool)
    ensures
        r == (a == b),
{
    match (a, b) {
        (Some(x), Some(y)) => x == y,
        (None, None) => true,
        _ => false,
    }
}

impl Clone for IndexField {
    fn clone(&self) -> (r: Self)
        ensures
            r@ == self@,
    {
        IndexField {
            location: self.location.clone(),
            sort_order: self.sort_order,
            length: self.length,
        }
    }
}

impl PartialEq for IndexField {
    fn eq(&self, other: &Self) -> (r: bool) {
        self.location == other.location && opt_sort_eq(self.sort_order, other.sort_order)
            && opt_u32_eq(self.length, other.length)
    }
}

impl PartialEqSpecImpl for IndexField {
    open spec fn obeys_eq_spec() -> bool {
        true
    }

    open spec fn eq_spec(&self, other: &Self) -> bool {
        self@ == other@
    }
}

/// An index of a model, declared on one field or for the model as a whole.
#[derive(Debug)]
pub struct IndexDefinition {
    pub name: Option<String>,
    pub db_name: Option<String>,
    pub fields: Vec<IndexField>,
    pub tpe: IndexType,
    pub algorithm: Option<IndexAlgorithm>,
    pub defined_on_field: bool,
}

/// The mathematical content of an [`IndexDefinition`].
pub ghost struct IndexDefinitionView {
    pub name: Option<Seq<char>>,
    pub db_name: Option<Seq<char>>,
    pub fields: Seq<IndexFieldView>,
    pub tpe: IndexType,
    pub algorithm: Option<IndexAlgorithm>,
    pub defined_on_field: bool,
}

impl IndexDefinitionView {
    /// An index has at least one field.
    pub open spec fn wf(self) -> bool {
        self.fields.len() > 0
    }

    /// Whether the first field of the index is the model's field `name`.
    pub open spec fn leads_with(self, name: Seq<char>) -> bool {
        self.fields.len() > 0 && self.fields[0].location.is_model_field(name)
    }

    /// Whether one of the fields of the index is the model's field `name`.
    pub open spec fn is_on_model_field(self, name: Seq<char>) -> bool {
        exists|j: int|
            0 <= j < self.fields.len() && (#[trigger] self.fields[j]).location.is_model_field(
                name,
            )
    }

    /// Whether this is a unique index on the model's field `name` alone.
    pub open spec fn is_unique_on(self, name: Seq<char>) -> bool {
        self.tpe == IndexType::Unique && self.fields.len() == 1 && self.leads_with(name)
    }
}

impl View for IndexDefinition {
    type V = IndexDefinitionView;

    open spec fn view(&self) -> IndexDefinitionView {
        IndexDefinitionView {
            name: opt_view(self.name),
            db_name: opt_view(self.db_name),
            fields: views(self.fields@),
            tpe: self.tpe,
            algorithm: self.algorithm,
            defined_on_field: self.defined_on_field,
        }
    }
}

impl IndexDefinition {
    /// Whether this is a unique index.
    pub fn is_unique(&self) -> (r: bool)
        ensures
            r == (self@.tpe == IndexType::Unique),
    {
        self.tpe == IndexType::Unique
    }

    /// Whether this is a full-text index.
    pub fn is_fulltext(&self) -> (r: bool)
        ensures
            r == (self@.tpe == IndexType::Fulltext),
    {
        self.tpe == IndexType::Fulltext
    }

    /// Whether the first field of the index is the model's field `name`.
    pub fn leads_with(&self, name: &str) -> (r: bool)
        ensures
            r == self@.leads_with(name@),
    {
        self.fields.len() > 0 && self.fields[0].location.is_model_field(name)
    }

    /// Whether this is a unique index on the model's field `name` alone.
    pub fn is_unique_on(&self, name: &str) -> (r: bool)
        ensures
            r == self@.is_unique_on(name@),
    {
        self.is_unique() && self.fields.len() == 1 && self.leads_with(name)
    }
}

impl Clone for IndexDefinition {
    fn clone(&self) -> (r: Self)
        ensures
            r@ == self@,
    {
        let mut fields: Vec<IndexField> = Vec::new();
        let mut i: usize = 0;
        while i < self.fields.len()
            invariant
                i <= self.fields.len(),
                fields@.len() == i,
                forall|k: int| 0 <= k < i ==> fields@[k]@ == self.fields@[k]@,
            decreases self.fields.len() - i,
        {
            fields.push(self.fields[i].clone());
            i = i + 1;
        }
        let r = IndexDefinition {
            name: opt_str_clone(&self.name),
            db_name: opt_str_clone(&self.db_name),
            fields,
            tpe: self.tpe,
            algorithm: self.algorithm,
            defined_on_field: self.defined_on_field,
        };
        assert(r@.fields =~= self@.fields);
        r
    }
}

impl PartialEq for IndexDefinition {
    fn eq(&self, other: &Self) -> (r: bool) {
        if !(opt_str_eq(&self.name, &other.name) && opt_str_eq(&self.db_name, &other.db_name)
            && self.tpe == other.tpe && opt_algorithm_eq(self.algorithm, other.algorithm)
            && self.defined_on_field == other.defined_on_field) {
            return false;
        }
        if self.fields.len() != other.fields.len() {
            assert(self@.fields.len() != other@.fields.len());
            return false;
        }
        let mut i: usize = 0;
        while i < self.fields.len()
            invariant
                i <= self.fields.len(),
                self.fields.len() == other.fields.len(),
                forall|k: int| 0 <= k < i ==> self.fields@[k]@ == other.fields@[k]@,
            decreases self.fields.len() - i,
        {
            if !(self.fields[i] == other.fields[i]) {
                assert(self@.fields[i as int] != other@.fields[i as int]);
                return false;
            }
            i = i + 1;
        }
        assert(self@.fields =~= other@.fields);
        true
    }
}

impl PartialEqSpecImpl for IndexDefinition {
    open spec fn obeys_eq_spec() -> bool {
        true
    }

    open spec fn eq_spec(&self, other: &Self) -> bool {
        self@ == other@
    }
}

/// A field of a primary key, with an optional sort order and length limit.
#[derive(Debug)]
pub struct PrimaryKeyField {
    pub name: String,
    pub sort_order: Option<SortOrder>,
    pub length: Option<u32>,
}

/// The mathematical content of a [`PrimaryKeyField`].
pub ghost struct PrimaryKeyFieldView {
    pub name: Seq<char>,
    pub sort_order: Option<SortOrder>,
    pub length: Option<u32>,
}

impl PrimaryKeyFieldView {
    /// What stands between the brackets: the length, then the sort order.
    pub open spec fn arguments(self) -> Seq<char> {
        (match self.length {
            Some(l) => decimal(l as nat),
            None => Seq::empty(),
        }) + (match self.sort_order {
            Some(s) => s.text(),
            None => Seq::empty(),
        })
    }

    /// The field as a schema shows it: its name, followed in round brackets
    /// by its length and its sort order where it has either.
    pub open spec fn text(self) -> Seq<char> {
        if self.sort_order is Some || self.length is Some {
            self.name + seq!['('] + self.arguments() + seq![')']
        } else {
            self.name
        }
    }
}

impl View for PrimaryKeyField {
    type V = PrimaryKeyFieldView;

    open spec fn view(&self) -> PrimaryKeyFieldView {
        PrimaryKeyFieldView { name: self.name@, sort_order: self.sort_order, length: self.length }
    }
}

impl PrimaryKeyField {
    /// The field `name`, without sort order or length.
    pub fn new(name: &str) -> (r: Self)
        ensures
            r@ == (PrimaryKeyFieldView { name: name@, sort_order: None, length: None }),
    {
        PrimaryKeyField { name: name.to_owned(), sort_order: None, length: None }
    }

    /// The field as a schema shows it.
    pub fn to_string(&self) -> (r: String)
        ensures
            r@ == self@.text(),
    {
        let mut out = self.name.clone();
        if self.sort_order.is_some() || self.length.is_some() {
            proof {
                reveal_strlit("(");
                reveal_strlit(")");
            }
            out.append("(");
            assert(out@ =~= self.name@ + seq!['(']);
            if let Some(length) = self.length {
                push_decimal(&mut out, length);
            }
            if let Some(sort) = self.sort_order {
                out.append(sort.as_str());
            }
            assert(out@ =~= self.name@ + seq!['('] + self@.arguments());
            out.append(")");
            assert(out@ =~= self@.text());
        }
        out
    }
}

impl Clone for PrimaryKeyField {
    fn clone(&self) -> (r: Self)
        ensures
            r@ == self@,
    {
        PrimaryKeyField {
            name: self.name.clone(),
            sort_order: self.sort_order,
            length: self.length,
        }
    }
}

impl PartialEq for PrimaryKeyField {
    fn eq(&self, other: &Self) -> (r: bool) {
        str_eq(self.name.as_str(), other.name.as_str()) && opt_sort_eq(
            self.sort_order,
            other.sort_order,
        ) && opt_u32_eq(self.length, other.length)
    }
}

impl PartialEqSpecImpl for PrimaryKeyField {
    open spec fn obeys_eq_spec() -> bool {
        true
    }

    open spec fn eq_spec(&self, other: &Self) -> bool {
        self@ == other@
    }
}

/// The primary key of a model, declared on one field or for the model as a whole.
#[derive(Debug)]
pub struct PrimaryKeyDefinition {
    pub name: Option<String>,
    pub db_name: Option<String>,
    pub fields: Vec<PrimaryKeyField>,
    pub defined_on_field: bool,
}

/// The mathematical content of a [`PrimaryKeyDefinition`].
pub ghost struct PrimaryKeyDefinitionView {
    pub name: Option<Seq<char>>,
    pub db_name: Option<Seq<char>>,
    pub fields: Seq<PrimaryKeyFieldView>,
    pub defined_on_field: bool,
}

impl PrimaryKeyDefinitionView {
    /// A primary key has at least one field.
    pub open spec fn wf(self) -> bool {
        self.fields.len() > 0
    }

    /// Whether the first field of the key is `name`.
    pub open spec fn leads_with(self, name: Seq<char>) -> bool {
        self.fields.len() > 0 && self.fields[0].name == name
    }

    /// Whether one of the fields of the key is `name`.
    pub open spec fn is_on_field(self, name: Seq<char>) -> bool {
        exists|j: int| 0 <= j < self.fields.len() && (#[trigger] self.fields[j]).name == name
    }

    /// Whether the key is the field `name` alone.
    pub open spec fn is_on(self, name: Seq<char>) -> bool {
        self.fields.len() == 1 && self.fields[0].name == name
    }
}

impl View for PrimaryKeyDefinition {
    type V = PrimaryKeyDefinitionView;

    open spec fn view(&self) -> PrimaryKeyDefinitionView {
        PrimaryKeyDefinitionView {
            name: opt_view(self.name),
            db_name: opt_view(self.db_name),
            fields: views(self.fields@),
            defined_on_field: self.defined_on_field,
        }
    }
}

impl PrimaryKeyDefinition {
    /// Whether the first field of the key is `name`.
    pub fn leads_with(&self, name: &str) -> (r: bool)
        ensures
            r == self@.leads_with(name@),
    {
        self.fields.len() > 0 && str_eq(self.fields[0].name.as_str(), name)
    }

    /// Whether the key is the field `name` alone.
    pub fn is_on(&self, name: &str) -> (r: bool)
        ensures
            r == self@.is_on(name@),
    {
        self.fields.len() == 1 && str_eq(self.fields[0].name.as_str(), name)
    }
}

impl Clone for PrimaryKeyDefinition {
    fn clone(&self) -> (r: Self)
        ensures
            r@ == self@,
    {
        let mut fields: Vec<PrimaryKeyField> = Vec::new();
        let mut i: usize = 0;
        while i < self.fields.len()
            invariant
                i <= self.fields.len(),
                fields@.len() == i,
                forall|k: int| 0 <= k < i ==> fields@[k]@ == self.fields@[k]@,
            decreases self.fields.len() - i,
        {
            fields.push(self.fields[i].clone());
            i = i + 1;
        }
        let r = PrimaryKeyDefinition {
            name: opt_str_clone(&self.name),
            db_name: opt_str_clone(&self.db_name),
            fields,
            defined_on_field: self.defined_on_field,
        };
        assert(r@.fields =~= self@.fields);
        r
    }
}

impl PartialEq for PrimaryKeyDefinition {
    fn eq(&self, other: &Self) -> (r: bool) {
        if !(opt_str_eq(&self.name, &other.name) && opt_str_eq(&self.db_name, &other.db_name)
            && self.defined_on_field == other.defined_on_field) {
            return false;
        }
        if self.fields.len() != other.fields.len() {
            assert(self@.fields.len() != other@.fields.len());
            return false;
        }
        let mut i: usize = 0;
        while i < self.fields.len()
            invariant
                i <= self.fields.len(),
                self.fields.len() == other.fields.len(),
                forall|k: int| 0 <= k < i ==> self.fields@[k]@ == other.fields@[k]@,
            decreases self.fields.len() - i,
        {
            if !(self.fields[i] == other.fields[i]) {
                assert(self@.fields[i as int] != other@.fields[i as int]);
                return false;
            }
            i = i + 1;
        }
        assert(self@.fields =~= other@.fields);
        true
    }
}

impl PartialEqSpecImpl for PrimaryKeyDefinition {
    open spec fn obeys_eq_spec() -> bool {
        true
    }

    open spec fn eq_spec(&self, other: &Self) -> bool {
        self@ == other@
    }
}

} // verus!

//! Fields of a model: scalar, relation and composite fields, their types,
//! arities and default values.

use crate::seqs::opt_view;
use crate::text::{opt_str_clone, opt_str_eq, str_eq};
use vstd::prelude::*;
use vstd::std_specs::cmp::PartialEqSpecImpl;

verus! {

/// The built-in scalar types.
#[derive(Clone, Copy, Debug, PartialEq, Eq, Structural)]
pub enum ScalarType {
    Int,
    BigInt,
    Float,
    Boolean,
    String,
    DateTime,
    Json,
    Bytes,
    Decimal,
}

/// How many values a field holds.
#[derive(Clone, Copy, Debug, PartialEq, Eq, Structural)]
pub enum FieldArity {
    Required,
    Optional,
    List,
}

impl FieldArity {
    /// Whether a field of this arity may be absent.
    pub fn is_optional(self) -> (r: bool)
        ensures
            r == (self == FieldArity::Optional),
    {
        self == FieldArity::Optional
    }

    /// Whether a field of this arity must be present.
    pub fn is_required(self) -> (r: bool)
        ensures
            r == (self == FieldArity::Required),
    {
        self == FieldArity::Required
    }
}

/// The type of a field.
#[derive(Debug)]
pub enum FieldType {
    /// A built-in scalar type, with the length that the database limits its
    /// values to, where it limits them.
    Scalar(ScalarType, Option<u32>),
    /// An enum, by its name.
    Enum(String),
    /// A relation to the model of that name.
    Relation(String),
    /// A composite type, by its name.
    CompositeType(String),
    /// A type the schema language does not know, as the database names it.
    Unsupported(String),
}

/// The mathematical content of a [`FieldType`].
pub ghost enum FieldTypeView {
    Scalar(ScalarType, Option<u32>),
    Enum(Seq<char>),
    Relation(Seq<char>),
    CompositeType(Seq<char>),
    Unsupported(Seq<char>),
}

impl View for FieldType {
    type V = FieldTypeView;

    open spec fn view(&self) -> FieldTypeView {
        match *self {
            FieldType::Scalar(t, l) => FieldTypeView::Scalar(t, l),
            FieldType::Enum(n) => FieldTypeView::Enum(n@),
            FieldType::Relation(n) => FieldTypeView::Relation(n@),
            FieldType::CompositeType(n) => FieldTypeView::CompositeType(n@),
            FieldType::Unsupported(n) => FieldTypeView::Unsupported(n@),
        }
    }
}

impl FieldTypeView {
    /// Whether this is the built-in scalar type `t`, of whatever length.
    pub open spec fn is_scalar(self, t: ScalarType) -> bool {
        self matches FieldTypeView::Scalar(s, _) && s == t
    }
}

impl FieldType {
    /// The built-in scalar type `t`, without a limit on its length.
    pub fn scalar(t: ScalarType) -> (r: Self)
        ensures
            r@ == FieldTypeView::Scalar(t, None),
    {
        FieldType::Scalar(t, None)
    }

    /// Whether this is the date and time type.
    pub fn is_datetime(&self) -> (r: bool)
        ensures
            r == self@.is_scalar(ScalarType::DateTime),
    {
        match self {
            FieldType::Scalar(t, _) => *t == ScalarType::DateTime,
            _ => false,
        }
    }

    /// Whether this is the integer type.
    pub fn is_int(&self) -> (r: bool)
        ensures
            r == self@.is_scalar(ScalarType::Int),
    {
        match self {
            FieldType::Scalar(t, _) => *t == ScalarType::Int,
            _ => false,
        }
    }

    /// Whether this is a type the schema language does not know.
    pub fn is_unsupported(&self) -> (r: bool)
        ensures
            r == (self@ is Unsupported),
    {
        match self {
            FieldType::Unsupported(_) => true,
            _ => false,
        }
    }
}

impl Clone for FieldType {
    fn clone(&self) -> (r: Self)
        ensures
            r@ == self@,
    {
        match self {
            FieldType::Scalar(t, l) => FieldType::Scalar(*t, *l),
            FieldType::Enum(n) => FieldType::Enum(n.clone()),
            FieldType::Relation(n) => FieldType::Relation(n.clone()),
            FieldType::CompositeType(n) => FieldType::CompositeType(n.clone()),
            FieldType::Unsupported(n) => FieldType::Unsupported(n.clone()),
        }
    }
}

impl PartialEq for FieldType {
    fn eq(&self, other: &Self) -> (r: bool) {
        match (self, other) {
            (FieldType::Scalar(a, k), FieldType::Scalar(b, l)) => *a == *b && opt_u32_eq(*k, *l),
            (FieldType::Enum(a), FieldType::Enum(b)) => str_eq(a.as_str(), b.as_str()),
            (FieldType::Relation(a), FieldType::Relation(b)) => str_eq(a.as_str(), b.as_str()),
            (FieldType::CompositeType(a), FieldType::CompositeType(b)) => str_eq(
                a.as_str(),
                b.as_str(),
            ),
            (FieldType::Unsupported(a), FieldType::Unsupported(b)) => str_eq(
                a.as_str(),
                b.as_str(),
            ),
            _ => false,
        }
    }
}

impl PartialEqSpecImpl for FieldType {
    open spec fn obeys_eq_spec() -> bool {
        true
    }

    open spec fn eq_spec(&self, other: &Self) -> bool {
        self@ == other@
    }
}

/// Whether two optional numbers are both absent or the same.
pub fn opt_u32_eq(a: Option<u32>, b: Option<u32>) -> (r: bool)
    ensures
        r == (a == b),
{
    match (a, b) {
        (Some(x), Some(y)) => x == y,
        (None, None) => true,
        _ => false,
    }
}

/// What a default value is made of.
#[derive(Debug)]
pub enum DefaultKind {
    /// A literal value, as written.
    Single(String),
    /// A generator expression, such as `autoincrement()`, by its name.
    Expression(String),
}

/// The mathematical content of a [`DefaultKind`] and of a [`DefaultValue`].
pub ghost enum DefaultView {
    Single(Seq<char>),
    Expression(Seq<char>),
}

impl View for DefaultKind {
    type V = DefaultView;

    open spec fn view(&self) -> DefaultView {
        match *self {
            DefaultKind::Single(v) => DefaultView::Single(v@),
            DefaultKind::Expression(g) => DefaultView::Expression(g@),
        }
    }
}

/// The default value of a field.
#[derive(Debug)]
pub struct DefaultValue {
    pub kind: DefaultKind,
}

impl View for DefaultValue {
    type V = DefaultView;

    open spec fn view(&self) -> DefaultView {
        self.kind@
    }
}

impl DefaultValue {
    /// A literal default value.
    pub fn new_single(value: String) -> (r: Self)
        ensures
            r@ == DefaultView::Single(value@),
    {
        DefaultValue { kind: DefaultKind::Single(value) }
    }

    /// A default value that a generator expression gives.
    pub fn new_expression(generator: String) -> (r: Self)
        ensures
            r@ == DefaultView::Expression(generator@),
    {
        DefaultValue { kind: DefaultKind::Expression(generator) }
    }

    /// What the default value is made of.
    pub fn kind(&self) -> (r: &DefaultKind)
        ensures
            r@ == self@,
    {
        &self.kind
    }

    /// Whether the default value comes from a generator expression.
    pub fn is_expression(&self) -> (r: bool)
        ensures
            r == (self@ is Expression),
    {
        match &self.kind {
            DefaultKind::Expression(_) => true,
            DefaultKind::Single(_) => false,
        }
    }
}

impl Clone for DefaultValue {
    fn clone(&self) -> (r: Self)
        ensures
            r@ == self@,
    {
        match &self.kind {
            DefaultKind::Single(v) => DefaultValue { kind: DefaultKind::Single(v.clone()) },
            DefaultKind::Expression(g) => DefaultValue { kind: DefaultKind::Expression(g.clone()) },
        }
    }
}

impl PartialEq for DefaultValue {
    fn eq(&self, other: &Self) -> (r: bool) {
        match (&self.kind, &other.kind) {
            (DefaultKind::Single(a), DefaultKind::Single(b)) => str_eq(a.as_str(), b.as_str()),
            (DefaultKind::Expression(a), DefaultKind::Expression(b)) => str_eq(
                a.as_str(),
                b.as_str(),
            ),
            _ => false,
        }
    }
}

impl PartialEqSpecImpl for DefaultValue {
    open spec fn obeys_eq_spec() -> bool {
        true
    }

    open spec fn eq_spec(&self, other: &Self) -> bool {
        self@ == other@
    }
}

/// Whether two optional default values are both absent or alike.
pub fn opt_default_eq(a: &Option<DefaultValue>, b: &Option<DefaultValue>) -> (r: bool)
    ensures
        r == (opt_view(*a) == opt_view(*b)),
{
    match (a, b) {
        (Some(x), Some(y)) => x == y,
        (None, None) => true,
        _ => false,
    }
}

/// A copy of an optional default value.
pub fn opt_default_clone(a: &Option<DefaultValue>) -> (r: Option<DefaultValue>)
    ensures
        opt_view(r) == opt_view(*a),
{
    match a {
        Some(x) => Some(x.clone()),
        None => None,
    }
}

/// Which of the three variants a field is.
#[derive(Clone, Copy, Debug, PartialEq, Eq, Structural)]
pub enum FieldKind {
    Scalar,
    Relation,
    Composite,
}

/// The mathematical content of a field, whatever its variant: every field has
/// a name, a type, an arity, and possibly a name in the database and a
/// default value (a relation field has neither of the last two).
pub ghost struct FieldView {
    pub kind: FieldKind,
    pub name: Seq<char>,
    pub field_type: FieldTypeView,
    pub arity: FieldArity,
    pub database_name: Option<Seq<char>>,
    pub default_value: Option<DefaultView>,
}

impl FieldView {
    /// The name of the column that holds the field.
    pub open spec fn column_name(self) -> Seq<char> {
        match self.database_name {
            Some(n) => n,
            None => self.name,
        }
    }
}

/// A field that holds a scalar value.
#[derive(Debug)]
pub struct ScalarField {
    pub name: String,
    pub field_type: FieldType,
    pub arity: FieldArity,
    pub database_name: Option<String>,
    pub default_value: Option<DefaultValue>,
}

impl View for ScalarField {
    type V = FieldView;

    open spec fn view(&self) -> FieldView {
        FieldView {
            kind: FieldKind::Scalar,
            name: self.name@,
            field_type: self.field_type@,
            arity: self.arity,
            database_name: opt_view(self.database_name),
            default_value: opt_view(self.default_value),
        }
    }
}

impl ScalarField {
    /// A scalar field without a database name or a default value.
    pub fn new(name: &str, arity: FieldArity, field_type: FieldType) -> (r: Self)
        ensures
            r@ == (FieldView {
                kind: FieldKind::Scalar,
                name: name@,
                field_type: field_type@,
                arity,
                database_name: None,
                default_value: None,
            }),
    {
        ScalarField {
            name: name.to_owned(),
            field_type,
            arity,
            database_name: None,
            default_value: None,
        }
    }
}

impl Clone for ScalarField {
    fn clone(&self) -> (r: Self)
        ensures
            r@ == self@,
    {
        ScalarField {
            name: self.name.clone(),
            field_type: self.field_type.clone(),
            arity: self.arity,
            database_name: opt_str_clone(&self.database_name),
            default_value: opt_default_clone(&self.default_value),
        }
    }
}

impl PartialEq for ScalarField {
    fn eq(&self, other: &Self) -> (r: bool) {
        str_eq(self.name.as_str(), other.name.as_str()) && self.field_type == other.field_type
            && self.arity == other.arity && opt_str_eq(&self.database_name, &other.database_name)
            && opt_default_eq(&self.default_value, &other.default_value)
    }
}

impl PartialEqSpecImpl for ScalarField {
    open spec fn obeys_eq_spec() -> bool {
        true
    }

    open spec fn eq_spec(&self, other: &Self) -> bool {
        self@ == other@
    }
}

/// A field that relates its model to another.
#[derive(Debug)]
pub struct RelationField {
    pub name: String,
    /// The name of the model the relation leads to.
    pub to: String,
    pub arity: FieldArity,
}

impl View for RelationField {
    type V = FieldView;

    open spec fn view(&self) -> FieldView {
        FieldView {
            kind: FieldKind::Relation,
            name: self.name@,
            field_type: FieldTypeView::Relation(self.to@),
            arity: self.arity,
            database_name: None,
            default_value: None,
        }
    }
}

impl RelationField {
    /// A relation field that leads to the model `to`.
    pub fn new(name: &str, arity: FieldArity, to: &str) -> (r: Self)
        ensures
            r@ == (FieldView {
                kind: FieldKind::Relation,
                name: name@,
                field_type: FieldTypeView::Relation(to@),
                arity,
                database_name: None,
                default_value: None,
            }),
    {
        RelationField { name: name.to_owned(), to: to.to_owned(), arity }
    }
}

impl Clone for RelationField {
    fn clone(&self) -> (r: Self)
        ensures
            r@ == self@,
    {
        RelationField { name: self.name.clone(), to: self.to.clone(), arity: self.arity }
    }
}

impl PartialEq for RelationField {
    fn eq(&self, other: &Self) -> (r: bool) {
        str_eq(self.name.as_str(), other.name.as_str()) && str_eq(
            self.to.as_str(),
            other.to.as_str(),
        ) && self.arity == other.arity
    }
}

impl PartialEqSpecImpl for RelationField {
    open spec fn obeys_eq_spec() -> bool {
        true
    }

    open spec fn eq_spec(&self, other: &Self) -> bool {
        self@ == other@
    }
}

/// A field whose value is an embedded composite type.
#[derive(Debug)]
pub struct CompositeField {
    pub name: String,
    /// The name of the composite type.
    pub composite_type: String,
    pub arity: FieldArity,
    pub database_name: Option<String>,
    pub default_value: Option<DefaultValue>,
}

impl View for CompositeField {
    type V = FieldView;

    open spec fn view(&self) -> FieldView {
        FieldView {
            kind: FieldKind::Composite,
            name: self.name@,
            field_type: FieldTypeView::CompositeType(self.composite_type@),
            arity: self.arity,
            database_name: opt_view(self.database_name),
            default_value: opt_view(self.default_value),
        }
    }
}

impl CompositeField {
    /// A field of the composite type `composite_type`, without a database name
    /// or a default value.
    pub fn new(name: &str, arity: FieldArity, composite_type: &str) -> (r: Self)
        ensures
            r@ == (FieldView {
                kind: FieldKind::Composite,
                name: name@,
                field_type: FieldTypeView::CompositeType(composite_type@),
                arity,
                database_name: None,
                default_value: None,
            }),
    {
        CompositeField {
            name: name.to_owned(),
            composite_type: composite_type.to_owned(),
            arity,
            database_name: None,
            default_value: None,
        }
    }
}

impl Clone for CompositeField {
    fn clone(&self) -> (r: Self)
        ensures
            r@ == self@,
    {
        CompositeField {
            name: self.name.clone(),
            composite_type: self.composite_type.clone(),
            arity: self.arity,
            database_name: opt_str_clone(&self.database_name),
            default_value: opt_default_clone(&self.default_value),
        }
    }
}

impl PartialEq for CompositeField {
    fn eq(&self, other: &Self) -> (r: bool) {
        str_eq(self.name.as_str(), other.name.as_str()) && str_eq(
            self.composite_type.as_str(),
            other.composite_type.as_str(),
        ) && self.arity == other.arity && opt_str_eq(&self.database_name, &other.database_name)
            && opt_default_eq(&self.default_value, &other.default_value)
    }
}

impl PartialEqSpecImpl for CompositeField {
    open spec fn obeys_eq_spec() -> bool {
        true
    }

    open spec fn eq_spec(&self, other: &Self) -> bool {
        self@ == other@
    }
}

/// A field of a model.
#[derive(Debug)]
pub enum Field {
    ScalarField(ScalarField),
    RelationField(RelationField),
    CompositeField(CompositeField),
}

impl View for Field {
    type V = FieldView;

    open spec fn view(&self) -> FieldView {
        match *self {
            Field::ScalarField(f) => f@,
            Field::RelationField(f) => f@,
            Field::CompositeField(f) => f@,
        }
    }
}

impl Field {
    /// The name of the field.
    pub fn name(&self) -> (r: &str)
        ensures
            r@ == self@.name,
    {
        match self {
            Field::ScalarField(f) => f.name.as_str(),
            Field::RelationField(f) => f.name.as_str(),
            Field::CompositeField(f) => f.name.as_str(),
        }
    }

    /// The arity of the field.
    pub fn arity(&self) -> (r: FieldArity)
        ensures
            r == self@.arity,
    {
        match self {
            Field::ScalarField(f) => f.arity,
            Field::RelationField(f) => f.arity,
            Field::CompositeField(f) => f.arity,
        }
    }

    /// Which of the three variants the field is.
    pub fn kind(&self) -> (r: FieldKind)
        ensures
            r == self@.kind,
    {
        match self {
            Field::ScalarField(_) => FieldKind::Scalar,
            Field::RelationField(_) => FieldKind::Relation,
            Field::CompositeField(_) => FieldKind::Composite,
        }
    }

    /// The scalar field, where this is one.
    pub fn as_scalar_field(&self) -> (r: Option<&ScalarField>)
        ensures
            r is Some <==> self is ScalarField,
            r matches Some(f) ==> *self == Field::ScalarField(*f),
    {
        match self {
            Field::ScalarField(f) => Some(f),
            _ => None,
        }
    }

    /// The relation field, where this is one.
    pub fn as_relation_field(&self) -> (r: Option<&RelationField>)
        ensures
            r is Some <==> self is RelationField,
            r matches Some(f) ==> *self == Field::RelationField(*f),
    {
        match self {
            Field::RelationField(f) => Some(f),
            _ => None,
        }
    }

    /// The composite field, where this is one.
    pub fn as_composite_field(&self) -> (r: Option<&CompositeField>)
        ensures
            r is Some <==> self is CompositeField,
            r matches Some(f) ==> *self == Field::CompositeField(*f),
    {
        match self {
            Field::CompositeField(f) => Some(f),
            _ => None,
        }
    }
}

impl Clone for Field {
    fn clone(&self) -> (r: Self)
        ensures
            r@ == self@,
    {
        match self {
            Field::ScalarField(f) => Field::ScalarField(f.clone()),
            Field::RelationField(f) => Field::RelationField(f.clone()),
            Field::CompositeField(f) => Field::CompositeField(f.clone()),
        }
    }
}

impl PartialEq for Field {
    fn eq(&self, other: &Self) -> (r: bool) {
        match (self, other) {
            (Field::ScalarField(a), Field::ScalarField(b)) => a == b,
            (Field::RelationField(a), Field::RelationField(b)) => a == b,
            (Field::CompositeField(a), Field::CompositeField(b)) => a == b,
            _ => false,
        }
    }
}

impl PartialEqSpecImpl for Field {
    open spec fn obeys_eq_spec() -> bool {
        true
    }

    open spec fn eq_spec(&self, other: &Self) -> bool {
        self@ == other@
    }
}

impl Field {
    /// The name of the field in the database, where it has one of its own.
    pub fn database_name(&self) -> (r: Option<&str>)
        ensures
            opt_view(r) == self@.database_name,
    {
        let name = match self {
            Field::ScalarField(f) => &f.database_name,
            Field::RelationField(_) => {
                return None;
            },
            Field::CompositeField(f) => &f.database_name,
        };
        match name {
            Some(n) => Some(n.as_str()),
            None => None,
        }
    }

    /// The name of the column that holds the field.
    pub fn column_name(&self) -> (r: &str)
        ensures
            r@ == self@.column_name(),
    {
        match self.database_name() {
            Some(n) => n,
            None => self.name(),
        }
    }

    /// The default value of the field, where it has one.
    pub fn default_value(&self) -> (r: Option<&DefaultValue>)
        ensures
            opt_view(r) == self@.default_value,
    {
        let value = match self {
            Field::ScalarField(f) => &f.default_value,
            Field::RelationField(_) => {
                return None;
            },
            Field::CompositeField(f) => &f.default_value,
        };
        match value {
            Some(d) => Some(d),
            None => None,
        }
    }
}

impl FieldTypeView {
    /// The name of the composite type, where the type is one.
    pub open spec fn composite_type_name(self) -> Option<Seq<char>> {
        match self {
            FieldTypeView::CompositeType(t) => Some(t),
            _ => None,
        }
    }
}

impl Field {
    /// The name of the composite type of the field, where its type is one.
    pub fn composite_type_name(&self) -> (r: Option<&str>)
        ensures
            opt_view(r) == self@.field_type.composite_type_name(),
    {
        match self {
            Field::ScalarField(f) => match &f.field_type {
                FieldType::CompositeType(t) => Some(t.as_str()),
                _ => None,
            },
            Field::RelationField(_) => None,
            Field::CompositeField(f) => Some(f.composite_type.as_str()),
        }
    }
}

} // verus!

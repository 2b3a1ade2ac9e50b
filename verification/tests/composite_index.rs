use migration_core::field::{CompositeField, Field, FieldArity, FieldType, ScalarField, ScalarType};
use migration_core::index::{IndexField, IndexFieldLocation, IndexType};
use migration_core::model::Model;
use migration_core::schema::{CompositeType, Datamodel};
use migration_core::validate::{
    resolve_path, validate_index, validate_indexes, FieldPath, IndexDeclaration, UnknownField,
    ValidationError,
};

/// type A { field String }
/// model B { id Int @id @map("_id"); a A }
fn schema() -> (Datamodel, Model) {
    let mut a = CompositeType::new("A");
    a.add_field(Field::ScalarField(ScalarField::new(
        "field",
        FieldArity::Required,
        FieldType::scalar(ScalarType::String),
    )));
    let mut b = Model::new("B".to_string(), None);
    let mut id = ScalarField::new("id", FieldArity::Required, FieldType::scalar(ScalarType::Int));
    id.database_name = Some("_id".to_string());
    b.add_field(Field::ScalarField(id));
    b.add_field(Field::CompositeField(CompositeField::new("a", FieldArity::Required, "A")));
    let mut d = Datamodel::empty();
    d.add_composite_type(a);
    (d, b)
}

fn declaration(tpe: IndexType, path: &[&str]) -> IndexDeclaration {
    let mut p = FieldPath::new(path[0]);
    for s in &path[1..] {
        p = p.then(s);
    }
    IndexDeclaration::new(tpe, vec![p])
}

#[test]
fn simple_composite_index() {
    let (d, b) = schema();
    let decls = vec![declaration(IndexType::Normal, &["a", "field"])];
    let r = validate_indexes(&d, &b, &decls);
    assert!(r.is_ok());
    let indexes = r.unwrap();
    assert_eq!(indexes.len(), 1);
    assert_eq!(indexes[0].tpe, IndexType::Normal);
    assert_eq!(
        indexes[0].fields,
        vec![IndexField::new_in_composite_type("A", "field", "a.field")]
    );
}

#[test]
fn index_to_a_missing_field_in_a_composite_type() {
    let (d, b) = schema();
    let decls = vec![declaration(IndexType::Normal, &["a", "cat"])];
    let errors = validate_indexes(&d, &b, &decls).unwrap_err();
    assert_eq!(errors.len(), 1);
    assert_eq!(
        errors[0],
        ValidationError {
            model: "B".to_string(),
            tpe: IndexType::Normal,
            unknown_fields: vec![UnknownField {
                name: "cat".to_string(),
                in_type: Some("A".to_string())
            }],
        }
    );
    assert_eq!(
        errors[0].message(),
        "Error validating model \"B\": The index definition refers to the unknown fields: cat in type A."
    );
}

#[test]
fn index_to_a_missing_composite_field() {
    let (d, b) = schema();
    let decls = vec![
        declaration(IndexType::Normal, &["b", "field"]),
        declaration(IndexType::Unique, &["b", "field"]),
        declaration(IndexType::Fulltext, &["b", "field"]),
    ];
    let errors = validate_indexes(&d, &b, &decls).unwrap_err();
    let messages: Vec<String> = errors.iter().map(|e| e.message()).collect();
    assert_eq!(
        messages,
        vec![
            "Error validating model \"B\": The index definition refers to the unknown fields: b.",
            "Error validating model \"B\": The unique index definition refers to the unknown fields: b.",
            "Error validating model \"B\": The index definition refers to the unknown fields: b.",
        ]
    );
}

#[test]
fn every_invalid_declaration_is_reported() {
    let (d, b) = schema();
    let decls = vec![
        declaration(IndexType::Normal, &["id"]),
        declaration(IndexType::Unique, &["nope"]),
        declaration(IndexType::Normal, &["a", "field"]),
        declaration(IndexType::Normal, &["a", "dog"]),
    ];
    let errors = validate_indexes(&d, &b, &decls).unwrap_err();
    assert_eq!(errors.len(), 2);
    assert_eq!(errors[0].tpe, IndexType::Unique);
    assert_eq!(errors[0].unknown_fields[0].name, "nope");
    assert_eq!(errors[0].unknown_fields[0].in_type, None);
    assert_eq!(errors[1].unknown_fields[0].name, "dog");
    assert_eq!(errors[1].unknown_fields[0].in_type, Some("A".to_string()));
}

#[test]
fn unknown_fields_of_one_declaration_are_listed_together() {
    let (d, b) = schema();
    let decl = IndexDeclaration::new(
        IndexType::Unique,
        vec![
            FieldPath::new("x"),
            FieldPath::new("id"),
            FieldPath::new("a").then("cat"),
        ],
    );
    let e = validate_index(&d, &b, &decl).unwrap_err();
    assert_eq!(
        e.message(),
        "Error validating model \"B\": The unique index definition refers to the unknown fields: x, cat in type A."
    );
}

#[test]
fn valid_declaration_becomes_an_index() {
    let (d, b) = schema();
    let mut path = FieldPath::new("id");
    path.length = Some(8);
    let mut decl = IndexDeclaration::new(IndexType::Unique, vec![path, FieldPath::new("a").then("field")]);
    decl.name = Some("by_id".to_string());
    decl.defined_on_field = true;
    let index = validate_index(&d, &b, &decl).unwrap();
    assert_eq!(index.name, Some("by_id".to_string()));
    assert_eq!(index.tpe, IndexType::Unique);
    assert!(index.defined_on_field);
    assert_eq!(index.fields.len(), 2);
    assert_eq!(
        index.fields[0].location,
        IndexFieldLocation::InCurrentModel { field_name: "id".to_string() }
    );
    assert_eq!(index.fields[0].length, Some(8));
    assert_eq!(
        index.fields[1].location,
        IndexFieldLocation::InCompositeType {
            composite_type_name: "A".to_string(),
            field_name: "field".to_string(),
            full_path: "a.field".to_string(),
        }
    );
}

#[test]
fn paths_through_nested_composite_types() {
    let (mut d, b) = schema();
    let mut inner = CompositeType::new("Inner");
    inner.add_field(Field::ScalarField(ScalarField::new(
        "leaf",
        FieldArity::Required,
        FieldType::scalar(ScalarType::Int),
    )));
    d.add_composite_type(inner);
    d.composite_types[0].add_field(Field::CompositeField(CompositeField::new(
        "inner",
        FieldArity::Required,
        "Inner",
    )));
    let seg = |names: &[&str]| -> Vec<String> { names.iter().map(|s| s.to_string()).collect() };
    assert_eq!(
        resolve_path(&d, &b, &seg(&["a", "inner", "leaf"])),
        Ok(IndexFieldLocation::InCompositeType {
            composite_type_name: "Inner".to_string(),
            field_name: "leaf".to_string(),
            full_path: "a.inner.leaf".to_string(),
        })
    );
    assert_eq!(
        resolve_path(&d, &b, &seg(&["a", "inner", "twig"])),
        Err(UnknownField { name: "twig".to_string(), in_type: Some("Inner".to_string()) })
    );
    // a scalar field leads no further
    assert_eq!(
        resolve_path(&d, &b, &seg(&["a", "field", "x"])),
        Err(UnknownField { name: "x".to_string(), in_type: None })
    );
    assert_eq!(
        resolve_path(&d, &b, &seg(&["id", "x"])),
        Err(UnknownField { name: "x".to_string(), in_type: None })
    );
    assert_eq!(
        resolve_path(&d, &b, &seg(&[])),
        Err(UnknownField { name: String::new(), in_type: None })
    );
}

#[test]
fn path_into_a_type_that_is_not_there() {
    let (_, b) = schema();
    let d = Datamodel::empty();
    let seg: Vec<String> = vec!["a".to_string(), "field".to_string()];
    assert_eq!(
        resolve_path(&d, &b, &seg),
        Err(UnknownField { name: "field".to_string(), in_type: Some("A".to_string()) })
    );
}

use migration_core::field::{CompositeField, Field, FieldArity, FieldType, ScalarField, ScalarType};
use migration_core::index::{
    IndexDefinition, IndexField, IndexFieldLocation, IndexType, PrimaryKeyDefinition,
    PrimaryKeyField,
};
use migration_core::model::Model;
use migration_core::schema::{CompositeType, Datamodel};

fn scalar(name: &str, t: ScalarType) -> Field {
    Field::ScalarField(ScalarField::new(name, FieldArity::Required, FieldType::scalar(t)))
}

fn index(fields: Vec<IndexField>) -> IndexDefinition {
    IndexDefinition {
        name: None,
        db_name: None,
        fields,
        tpe: IndexType::Normal,
        algorithm: None,
        defined_on_field: false,
    }
}

fn key(names: &[&str]) -> PrimaryKeyDefinition {
    PrimaryKeyDefinition {
        name: None,
        db_name: None,
        fields: names.iter().map(|n| PrimaryKeyField::new(n)).collect(),
        defined_on_field: false,
    }
}

fn address() -> CompositeType {
    let mut t = CompositeType::new("Address");
    t.add_field(scalar("street", ScalarType::String));
    t.add_field(scalar("city", ScalarType::String));
    t
}

fn person() -> Model {
    let mut m = Model::new("Person".to_string(), None);
    m.add_field(scalar("id", ScalarType::Int));
    m.add_field(scalar("name", ScalarType::String));
    m.add_field(Field::CompositeField(CompositeField::new("home", FieldArity::Optional, "Address")));
    m.primary_key = Some(key(&["id"]));
    m.add_index(index(vec![
        IndexField::new_in_model("name"),
        IndexField::new_in_composite_type("Address", "city", "home.city"),
    ]));
    m
}

fn snapshot() -> Datamodel {
    let mut d = Datamodel::empty();
    d.add_model(person());
    d.add_composite_type(address());
    d
}

#[test]
fn empty_snapshot_is_valid() {
    let d = Datamodel::empty();
    assert!(d.models.is_empty());
    assert!(d.composite_types.is_empty());
    assert!(d.is_valid());
}

#[test]
fn models_and_types_are_found_by_name() {
    let d = snapshot();
    assert_eq!(d.find_model("Person"), Some(&person()));
    assert_eq!(d.find_model("person"), None);
    assert_eq!(d.find_composite_type("Address"), Some(&address()));
    assert_eq!(d.find_composite_type("Person"), None);
    assert_eq!(d.model_position("Person"), Some(0));
    assert_eq!(d.model_position("Nobody"), None);
    assert!(address().has_field("city"));
    assert!(!address().has_field("country"));
    assert_eq!(address().find_field("street"), Some(&scalar("street", ScalarType::String)));
}

#[test]
fn well_formed_snapshot_is_valid() {
    let d = snapshot();
    assert!(d.is_valid());
    assert!(d.has_unique_model_names());
    assert!(d.model_resolves(&d.models[0]));
    assert!(person().is_wf());
    assert_eq!(d.clone(), d);
}

#[test]
fn repeated_model_name_is_not_valid() {
    let mut d = snapshot();
    d.add_model(Model::new("Other".to_string(), None));
    assert!(d.is_valid());
    d.add_model(Model::new("Person".to_string(), None));
    assert!(!d.has_unique_model_names());
    assert!(!d.is_valid());
}

#[test]
fn repeated_field_name_is_not_well_formed() {
    let mut m = person();
    assert!(m.has_unique_field_names());
    m.add_field(scalar("name", ScalarType::Int));
    assert!(!m.has_unique_field_names());
    assert!(!m.is_wf());
    let mut d = Datamodel::empty();
    d.add_model(m);
    d.add_composite_type(address());
    assert!(!d.is_valid());
}

#[test]
fn index_without_fields_is_not_well_formed() {
    let mut m = person();
    m.add_index(index(vec![]));
    assert!(!m.has_well_formed_indices());
    assert!(!m.is_wf());
    let mut n = person();
    n.primary_key = Some(key(&[]));
    assert!(!n.has_well_formed_primary_key());
    assert!(!n.is_wf());
    let mut keyless = person();
    keyless.primary_key = None;
    assert!(keyless.is_wf());
}

#[test]
fn references_to_what_is_not_there_are_not_valid() {
    let d = snapshot();
    let m = person();
    let in_model = |n: &str| IndexFieldLocation::InCurrentModel { field_name: n.to_string() };
    let in_type = |t: &str, f: &str| IndexFieldLocation::InCompositeType {
        composite_type_name: t.to_string(),
        field_name: f.to_string(),
        full_path: format!("home.{}", f),
    };
    assert!(d.resolves(&m, &in_model("name")));
    assert!(!d.resolves(&m, &in_model("city")));
    assert!(d.resolves(&m, &in_type("Address", "city")));
    assert!(!d.resolves(&m, &in_type("Address", "name")));
    assert!(!d.resolves(&m, &in_type("Place", "city")));

    let mut unknown_key = person();
    unknown_key.primary_key = Some(key(&["id", "nope"]));
    assert!(!d.model_resolves(&unknown_key));

    let mut unknown_index = person();
    unknown_index.add_index(index(vec![IndexField::new_in_model("nope")]));
    assert!(!d.model_resolves(&unknown_index));

    let mut without_type = snapshot();
    without_type.composite_types.clear();
    assert!(!without_type.is_valid());
}

#[test]
fn positions_of_fields_and_indexes() {
    let m = person();
    assert_eq!(m.field_position("name"), Some(1));
    assert_eq!(m.field_position("nope"), None);
    assert_eq!(m.index_position(&m.indices[0].clone()), Some(0));
    assert_eq!(m.index_position(&index(vec![IndexField::new_in_model("name")])), None);
    assert_eq!(m.table_name(), "Person");
    let mapped = Model::new("Person".to_string(), Some("people".to_string()));
    assert_eq!(mapped.table_name(), "people");
}

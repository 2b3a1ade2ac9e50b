use migration_core::field::{
    DefaultValue, Field, FieldArity, FieldKind, FieldType, RelationField, ScalarField, ScalarType,
};
use migration_core::index::{
    IndexAlgorithm, IndexDefinition, IndexField, IndexFieldLocation, IndexType,
    PrimaryKeyDefinition, PrimaryKeyField, SortOrder,
};
use migration_core::model::{Model, UniqueCriteria};
use migration_core::text::{push_decimal, starts_with, str_eq};

fn scalar(name: &str, t: ScalarType) -> Field {
    Field::ScalarField(ScalarField::new(name, FieldArity::Required, FieldType::scalar(t)))
}

fn relation(name: &str, to: &str) -> Field {
    Field::RelationField(RelationField::new(name, FieldArity::Optional, to))
}

fn index(names: &[&str], tpe: IndexType, defined_on_field: bool) -> IndexDefinition {
    IndexDefinition {
        name: None,
        db_name: None,
        fields: names.iter().map(|n| IndexField::new_in_model(n)).collect(),
        tpe,
        algorithm: None,
        defined_on_field,
    }
}

fn key(names: &[&str], defined_on_field: bool) -> PrimaryKeyDefinition {
    PrimaryKeyDefinition {
        name: None,
        db_name: None,
        fields: names.iter().map(|n| PrimaryKeyField::new(n)).collect(),
        defined_on_field,
    }
}

fn user() -> Model {
    let mut m = Model::new("User".to_string(), Some("users".to_string()));
    m.add_field(scalar("id", ScalarType::Int));
    m.add_field(scalar("email", ScalarType::String));
    m.add_field(scalar("a", ScalarType::String));
    m.add_field(scalar("b", ScalarType::String));
    m.add_field(relation("posts", "Post"));
    m.primary_key = Some(key(&["id"], true));
    m.add_index(index(&["email"], IndexType::Unique, true));
    m.add_index(index(&["a", "b"], IndexType::Normal, false));
    m
}

#[test]
fn new_model_is_empty() {
    let m = Model::new("User".to_string(), Some("users".to_string()));
    assert_eq!(m.name, "User");
    assert_eq!(m.database_name, Some("users".to_string()));
    assert!(m.fields.is_empty());
    assert!(m.indices.is_empty());
    assert!(m.primary_key.is_none());
    assert!(m.documentation.is_none());
    assert!(!m.is_generated && !m.is_commented_out && !m.is_ignored);
    assert_eq!(m.name(), "User");
    assert_eq!(m.database_name(), Some("users"));
}

#[test]
fn default_model_has_no_name() {
    let m = Model::default();
    assert_eq!(m, Model::new(String::new(), None));
}

#[test]
fn setters_change_one_thing() {
    let mut m = user();
    m.set_name("Account");
    m.set_database_name(None);
    m.ignore();
    let mut expected = user();
    expected.name = "Account".to_string();
    expected.database_name = None;
    expected.is_ignored = true;
    assert_eq!(m, expected);
    assert!(m.is_ignored());
}

#[test]
fn add_field_appends_without_deduplication() {
    let mut m = Model::new("M".to_string(), None);
    m.add_field(scalar("x", ScalarType::Int));
    m.add_field(scalar("x", ScalarType::String));
    assert_eq!(m.fields.len(), 2);
    assert_eq!(m.fields[1], scalar("x", ScalarType::String));
    // the first match wins
    assert_eq!(m.find_field("x"), Some(&scalar("x", ScalarType::Int)));
}

#[test]
fn add_index_appends() {
    let mut m = Model::new("M".to_string(), None);
    m.add_index(index(&["x"], IndexType::Normal, false));
    m.add_index(index(&["y"], IndexType::Unique, false));
    assert_eq!(m.indices.len(), 2);
    assert_eq!(m.indices[1], index(&["y"], IndexType::Unique, false));
}

#[test]
fn find_field_by_name() {
    let m = user();
    assert_eq!(m.find_field("email"), Some(&scalar("email", ScalarType::String)));
    assert_eq!(m.find_field("posts"), Some(&relation("posts", "Post")));
    assert_eq!(m.find_field("missing"), None);
    assert!(m.has_field("id"));
    assert!(!m.has_field("Id"));
}

#[test]
fn find_scalar_and_relation_fields() {
    let m = user();
    assert_eq!(m.find_scalar_field("id").map(|f| f.name.as_str()), Some("id"));
    assert!(m.find_scalar_field("posts").is_none());
    assert_eq!(m.find_relation_field("posts").map(|f| f.to.as_str()), Some("Post"));
    assert!(m.find_relation_field("id").is_none());
}

#[test]
fn find_scalar_field_by_database_name() {
    let mut m = user();
    let mut f = ScalarField::new("name", FieldArity::Required, FieldType::scalar(ScalarType::String));
    f.database_name = Some("full_name".to_string());
    m.add_field(Field::ScalarField(f));
    assert_eq!(m.find_scalar_field_db_name("full_name").map(|f| f.name.as_str()), Some("name"));
    assert!(m.find_scalar_field_db_name("name").is_none());
}

#[test]
fn fields_are_listed_in_order() {
    let m = user();
    let names: Vec<&str> = m.fields().map(|f| f.name()).collect();
    assert_eq!(names, vec!["id", "email", "a", "b", "posts"]);
    let scalars: Vec<&str> = m.scalar_fields().iter().map(|f| f.name.as_str()).collect();
    assert_eq!(scalars, vec!["id", "email", "a", "b"]);
    let relations: Vec<&str> = m.relation_fields().iter().map(|f| f.name.as_str()).collect();
    assert_eq!(relations, vec!["posts"]);
}

#[test]
fn fields_mut_gives_the_fields() {
    let mut m = user();
    m.fields_mut().pop();
    assert_eq!(m.fields.len(), 4);
    assert!(!m.has_field("posts"));
}

#[test]
fn find_field_mut_changes_in_place() {
    let mut m = user();
    *m.find_field_mut("email") = scalar("mail", ScalarType::String);
    assert!(m.has_field("mail"));
    assert!(!m.has_field("email"));
    assert_eq!(m.fields[1], scalar("mail", ScalarType::String));
    assert_eq!(m.fields.len(), 5);
}

#[test]
fn try_find_field_mut_reports_absence() {
    let mut m = user();
    assert!(m.try_find_field_mut("missing").is_none());
    assert_eq!(m, user());
    match m.try_find_field_mut("id") {
        Some(f) => *f = scalar("id", ScalarType::BigInt),
        None => panic!("the field exists"),
    }
    assert_eq!(m.fields[0], scalar("id", ScalarType::BigInt));
}

#[test]
fn find_scalar_field_mut_changes_in_place() {
    let mut m = user();
    m.find_scalar_field_mut("email").arity = FieldArity::Optional;
    assert_eq!(m.find_scalar_field("email").map(|f| f.arity), Some(FieldArity::Optional));
    assert_eq!(m.find_scalar_field("id").map(|f| f.arity), Some(FieldArity::Required));
}

#[test]
fn find_relation_field_mut_changes_in_place() {
    let mut m = user();
    m.find_relation_field_mut("posts").to = "Article".to_string();
    assert_eq!(m.find_relation_field("posts").map(|f| f.to.as_str()), Some("Article"));
}

#[test]
fn primary_key_of_one_field() {
    let m = user();
    assert!(m.field_is_primary("id"));
    assert!(!m.field_is_primary("email"));
    assert!(m.field_is_primary_and_defined_on_field("id"));
    assert!(m.has_single_id_field());
    let mut n = user();
    n.primary_key = Some(key(&["id"], false));
    assert!(n.field_is_primary("id"));
    assert!(!n.field_is_primary_and_defined_on_field("id"));
}

#[test]
fn primary_key_of_two_fields_is_no_single_id() {
    let mut m = user();
    m.primary_key = Some(key(&["a", "b"], false));
    assert!(!m.field_is_primary("a"));
    assert!(!m.field_is_primary("b"));
    assert!(!m.has_single_id_field());
    // the key covers its first field only
    assert!(m.field_is_indexed("a"));
    let mut n = Model::new("N".to_string(), None);
    n.add_field(scalar("a", ScalarType::Int));
    n.add_field(scalar("b", ScalarType::Int));
    n.primary_key = Some(key(&["a", "b"], false));
    assert!(n.field_is_indexed("a"));
    assert!(!n.field_is_indexed("b"));
}

#[test]
fn unique_index_of_one_field() {
    let m = user();
    assert!(m.field_is_unique("email"));
    assert!(m.field_is_unique_and_defined_on_field("email"));
    assert!(!m.field_is_unique("a"));
    assert!(!m.field_is_unique("id"));
    let mut n = Model::new("N".to_string(), None);
    n.add_field(scalar("x", ScalarType::Int));
    n.add_field(scalar("y", ScalarType::Int));
    n.add_index(index(&["x"], IndexType::Unique, false));
    n.add_index(index(&["x", "y"], IndexType::Unique, false));
    n.add_index(index(&["y"], IndexType::Normal, true));
    assert!(n.field_is_unique("x"));
    assert!(!n.field_is_unique_and_defined_on_field("x"));
    assert!(!n.field_is_unique("y"));
    assert!(!n.field_is_unique_and_defined_on_field("y"));
}

#[test]
fn index_covers_its_leading_field_only() {
    let m = user();
    assert!(m.field_is_indexed("a"));
    assert!(!m.field_is_indexed("b"));
    assert!(m.field_is_indexed("id"));
    assert!(m.field_is_indexed("email"));
    assert!(!m.field_is_indexed("posts"));
}

#[test]
fn index_into_composite_type_covers_no_field_of_the_model() {
    let mut m = Model::new("B".to_string(), None);
    m.add_field(scalar("field", ScalarType::String));
    m.add_index(IndexDefinition {
        name: None,
        db_name: None,
        fields: vec![IndexField::new_in_composite_type("A", "field", "a.field")],
        tpe: IndexType::Unique,
        algorithm: None,
        defined_on_field: false,
    });
    assert!(!m.field_is_indexed("field"));
    assert!(!m.field_is_unique("field"));
}

#[test]
fn timestamps_are_recognised() {
    let mut m = Model::new("M".to_string(), None);
    assert!(!m.has_created_at_and_updated_at());
    m.add_field(scalar("createdAt", ScalarType::DateTime));
    assert!(!m.has_created_at_and_updated_at());
    m.add_field(scalar("updatedAt", ScalarType::DateTime));
    assert!(m.has_created_at_and_updated_at());
}

#[test]
fn timestamps_in_lower_case_are_recognised() {
    let mut m = Model::new("M".to_string(), None);
    m.add_field(scalar("createdat", ScalarType::DateTime));
    m.add_field(scalar("updatedat", ScalarType::DateTime));
    assert!(m.has_created_at_and_updated_at());
    let mut n = Model::new("N".to_string(), None);
    n.add_field(scalar("CREATEDAT", ScalarType::DateTime));
    n.add_field(scalar("updatedAt", ScalarType::DateTime));
    assert!(!n.has_created_at_and_updated_at());
}

#[test]
fn timestamps_must_be_dates() {
    let mut m = Model::new("M".to_string(), None);
    m.add_field(scalar("createdAt", ScalarType::String));
    m.add_field(scalar("updatedAt", ScalarType::DateTime));
    assert!(!m.has_created_at_and_updated_at());
    // the exact name is looked at first, and decides
    m.add_field(scalar("createdat", ScalarType::DateTime));
    assert!(!m.has_created_at_and_updated_at());
}

#[test]
fn auto_generated_int_id() {
    let mut m = Model::new("M".to_string(), None);
    let mut id = ScalarField::new("id", FieldArity::Required, FieldType::scalar(ScalarType::Int));
    id.default_value = Some(DefaultValue::new_expression("autoincrement".to_string()));
    m.add_field(Field::ScalarField(id));
    let mut n = ScalarField::new("n", FieldArity::Required, FieldType::scalar(ScalarType::Int));
    n.default_value = Some(DefaultValue::new_single("1".to_string()));
    m.add_field(Field::ScalarField(n));
    m.add_field(scalar("plain", ScalarType::Int));
    m.primary_key = Some(key(&["id"], true));
    assert!(m.field_is_auto_generated_int_id("id"));
    assert!(!m.field_is_auto_generated_int_id("n"));
    assert!(!m.field_is_auto_generated_int_id("plain"));

    // a literal default is no generator
    m.primary_key = Some(key(&["n"], true));
    assert!(!m.field_is_auto_generated_int_id("n"));
    // the field must be the whole key
    m.primary_key = Some(key(&["id", "n"], false));
    assert!(!m.field_is_auto_generated_int_id("id"));
}

#[test]
fn auto_generated_id_must_be_an_int() {
    let mut m = Model::new("M".to_string(), None);
    let mut id = ScalarField::new("id", FieldArity::Required, FieldType::scalar(ScalarType::String));
    id.default_value = Some(DefaultValue::new_expression("uuid".to_string()));
    m.add_field(Field::ScalarField(id));
    m.primary_key = Some(key(&["id"], true));
    assert!(!m.field_is_auto_generated_int_id("id"));
}

#[test]
fn index_definition_types() {
    assert!(index(&["a"], IndexType::Unique, false).is_unique());
    assert!(!index(&["a"], IndexType::Normal, false).is_unique());
    assert!(index(&["a"], IndexType::Fulltext, false).is_fulltext());
    assert!(!index(&["a"], IndexType::Unique, false).is_fulltext());
    assert!(IndexType::Fulltext.is_fulltext());
    assert!(!IndexType::Normal.is_fulltext());
    assert_eq!(IndexAlgorithm::default(), IndexAlgorithm::BTree);
}

#[test]
fn index_field_in_model() {
    let f = IndexField::new_in_model("email");
    assert_eq!(
        f.location,
        IndexFieldLocation::InCurrentModel { field_name: "email".to_string() }
    );
    assert_eq!(f.sort_order, None);
    assert_eq!(f.length, None);
}

#[test]
fn primary_key_field_as_text() {
    let mut f = PrimaryKeyField::new("id");
    assert_eq!(f.name, "id");
    assert_eq!(f.to_string(), "id");
    f.length = Some(10);
    assert_eq!(f.to_string(), "id(10)");
    f.sort_order = Some(SortOrder::Desc);
    assert_eq!(f.to_string(), "id(10sort: Desc)");
    f.length = None;
    assert_eq!(f.to_string(), "id(sort: Desc)");
    f.sort_order = Some(SortOrder::Asc);
    f.length = Some(4294967295);
    assert_eq!(f.to_string(), "id(4294967295sort: Asc)");
    f.length = Some(0);
    f.sort_order = None;
    assert_eq!(f.to_string(), "id(0)");
}

#[test]
fn sort_order_as_text() {
    assert_eq!(SortOrder::Asc.to_string(), "sort: Asc");
    assert_eq!(SortOrder::Desc.to_string(), "sort: Desc");
}

#[test]
fn unique_criteria_keeps_its_fields() {
    let a = ScalarField::new("a", FieldArity::Required, FieldType::scalar(ScalarType::Int));
    let b = ScalarField::new("b", FieldArity::Optional, FieldType::scalar(ScalarType::Int));
    let c = UniqueCriteria::new(vec![&a, &b]);
    assert_eq!(c.fields.len(), 2);
    assert_eq!(c.fields[0].name, "a");
    assert_eq!(c.fields[1].name, "b");
}

#[test]
fn fields_know_what_they_are() {
    let f = scalar("x", ScalarType::DateTime);
    assert_eq!(f.name(), "x");
    assert_eq!(f.kind(), FieldKind::Scalar);
    assert_eq!(f.arity(), FieldArity::Required);
    assert!(f.as_scalar_field().is_some());
    assert!(f.as_relation_field().is_none());
    assert!(f.as_composite_field().is_none());
    assert_eq!(f.column_name(), "x");
    let r = relation("r", "T");
    assert_eq!(r.kind(), FieldKind::Relation);
    assert!(r.as_relation_field().is_some());
    assert!(FieldType::scalar(ScalarType::DateTime).is_datetime());
    assert!(!FieldType::scalar(ScalarType::Int).is_datetime());
    assert!(FieldType::Scalar(ScalarType::Int, Some(4)).is_int());
    assert!(FieldType::Unsupported("geometry".to_string()).is_unsupported());
    assert!(FieldArity::Optional.is_optional());
    assert!(!FieldArity::List.is_optional());
}

#[test]
fn clones_are_equal() {
    let m = user();
    assert_eq!(m.clone(), m);
    let mut other = user();
    other.indices[1].fields[1].length = Some(3);
    assert_ne!(other, m);
}

#[test]
fn strings_compare_by_content() {
    assert!(str_eq("", ""));
    assert!(str_eq("héllo", "héllo"));
    assert!(!str_eq("hello", "hellO"));
    assert!(!str_eq("hello", "hello "));
    assert!(!str_eq("é", "e"));
}

#[test]
fn prefixes() {
    assert!(starts_with("watch-1", "watch"));
    assert!(starts_with("watch", "watch"));
    assert!(starts_with("anything", ""));
    assert!(!starts_with("wat", "watch"));
    assert!(!starts_with("Watch-1", "watch"));
    assert!(starts_with("éa", "é"));
}

#[test]
fn decimal_numerals() {
    let mut s = String::from("n=");
    push_decimal(&mut s, 0);
    assert_eq!(s, "n=0");
    let mut s = String::new();
    push_decimal(&mut s, 7);
    assert_eq!(s, "7");
    let mut s = String::new();
    push_decimal(&mut s, 10);
    assert_eq!(s, "10");
    let mut s = String::new();
    push_decimal(&mut s, 1203);
    assert_eq!(s, "1203");
    let mut s = String::new();
    push_decimal(&mut s, u32::MAX);
    assert_eq!(s, "4294967295");
}

#[test]
fn scalar_fields_mut_changes_each_in_place() {
    let mut m = user();
    {
        let scalars = m.scalar_fields_mut();
        assert_eq!(scalars.len(), 4);
        let names: Vec<String> = scalars.iter().map(|f| f.name.clone()).collect();
        assert_eq!(names, vec!["id", "email", "a", "b"]);
        for f in scalars {
            f.arity = FieldArity::List;
        }
    }
    let mut expected = user();
    for i in 0..4 {
        if let Field::ScalarField(f) = &mut expected.fields[i] {
            f.arity = FieldArity::List;
        }
    }
    assert_eq!(m, expected);
    // the relation field stays as it was
    assert_eq!(m.fields[4], relation("posts", "Post"));
}

#[test]
fn relation_fields_mut_changes_each_in_place() {
    let mut m = user();
    m.fields.insert(0, relation("owner", "Org"));
    {
        let relations = m.relation_fields_mut();
        assert_eq!(relations.len(), 2);
        assert_eq!(relations[0].name, "owner");
        assert_eq!(relations[1].name, "posts");
        for f in relations {
            f.to = "Else".to_string();
        }
    }
    assert_eq!(m.fields[0], relation("owner", "Else"));
    assert_eq!(m.fields[5], relation("posts", "Else"));
    assert_eq!(m.fields[1], scalar("id", ScalarType::Int));
    assert!(Model::new("E".to_string(), None).scalar_fields_mut().is_empty());
}

#[test]
fn try_find_scalar_and_relation_field_mut() {
    let mut m = user();
    assert!(m.try_find_scalar_field_mut("posts").is_none());
    assert!(m.try_find_relation_field_mut("id").is_none());
    assert!(m.try_find_scalar_field_mut("missing").is_none());
    assert_eq!(m, user());
    if let Some(f) = m.try_find_scalar_field_mut("id") {
        f.database_name = Some("_id".to_string());
    }
    if let Some(f) = m.try_find_relation_field_mut("posts") {
        f.arity = FieldArity::List;
    }
    assert_eq!(m.find_scalar_field("id").and_then(|f| f.database_name.clone()), Some("_id".to_string()));
    assert_eq!(m.find_relation_field("posts").map(|f| f.arity), Some(FieldArity::List));
    assert_eq!(m.find_field("id").map(|f| f.column_name().to_string()), Some("_id".to_string()));
}

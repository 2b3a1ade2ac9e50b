use migration_core::differ::{collect_composite_references, diff, find_dangling_reference};
use migration_core::field::{
    CompositeField, Field, FieldArity, FieldType, RelationField, ScalarField, ScalarType,
};
use migration_core::index::{
    IndexDefinition, IndexField, IndexType, PrimaryKeyDefinition, PrimaryKeyField, SortOrder,
};
use migration_core::model::Model;
use migration_core::schema::{CompositeType, Datamodel};
use migration_core::steps::{CompositeReference, InferenceError, MigrationStep};

fn scalar(name: &str, t: ScalarType) -> Field {
    Field::ScalarField(ScalarField::new(name, FieldArity::Required, FieldType::scalar(t)))
}

fn relation(name: &str, to: &str) -> Field {
    Field::RelationField(RelationField::new(name, FieldArity::Optional, to))
}

fn index(names: &[&str], tpe: IndexType) -> IndexDefinition {
    IndexDefinition {
        name: None,
        db_name: None,
        fields: names.iter().map(|n| IndexField::new_in_model(n)).collect(),
        tpe,
        algorithm: None,
        defined_on_field: false,
    }
}

fn key(names: &[&str]) -> PrimaryKeyDefinition {
    PrimaryKeyDefinition {
        name: None,
        db_name: None,
        fields: names.iter().map(|n| PrimaryKeyField::new(n)).collect(),
        defined_on_field: false,
    }
}

fn user() -> Model {
    let mut m = Model::new("User".to_string(), Some("users".to_string()));
    m.add_field(scalar("id", ScalarType::Int));
    m.add_field(scalar("email", ScalarType::String));
    m.primary_key = Some(key(&["id"]));
    m.add_index(index(&["email"], IndexType::Unique));
    m
}

fn post() -> Model {
    let mut m = Model::new("Post".to_string(), None);
    m.add_field(scalar("id", ScalarType::Int));
    m.add_field(scalar("title", ScalarType::String));
    m.add_field(relation("author", "User"));
    m.primary_key = Some(key(&["id"]));
    m.add_index(index(&["title", "id"], IndexType::Normal));
    m
}

fn snapshot(models: Vec<Model>) -> Datamodel {
    let mut d = Datamodel::empty();
    for m in models {
        d.add_model(m);
    }
    d
}

fn name(s: &str) -> String {
    s.to_string()
}

#[test]
fn snapshot_differs_from_itself_in_nothing() {
    let a = snapshot(vec![user(), post()]);
    assert_eq!(diff(&a, &a), Ok(vec![]));
    let empty = Datamodel::empty();
    assert_eq!(diff(&empty, &empty), Ok(vec![]));
}

#[test]
fn inference_is_repeatable() {
    let before = snapshot(vec![user()]);
    let mut changed = user();
    changed.add_field(scalar("age", ScalarType::Int));
    let after = snapshot(vec![post(), changed]);
    let first = diff(&before, &after);
    let second = diff(&before.clone(), &after.clone());
    assert_eq!(first, second);
    assert!(first.is_ok());
}

#[test]
fn new_model_is_created_with_all_it_has() {
    let before = snapshot(vec![]);
    let after = snapshot(vec![post()]);
    assert_eq!(
        diff(&before, &after),
        Ok(vec![
            MigrationStep::CreateModel { model: name("Post"), database_name: None },
            MigrationStep::CreateField { model: name("Post"), field: scalar("id", ScalarType::Int) },
            MigrationStep::CreateField {
                model: name("Post"),
                field: scalar("title", ScalarType::String)
            },
            MigrationStep::CreateField { model: name("Post"), field: relation("author", "User") },
            MigrationStep::CreateIndex {
                model: name("Post"),
                index: index(&["title", "id"], IndexType::Normal)
            },
            MigrationStep::CreatePrimaryKey { model: name("Post"), primary_key: key(&["id"]) },
        ])
    );
}

#[test]
fn dropped_model_loses_all_it_has_first() {
    let before = snapshot(vec![user()]);
    let after = snapshot(vec![]);
    assert_eq!(
        diff(&before, &after),
        Ok(vec![
            MigrationStep::DeleteIndex {
                model: name("User"),
                index: index(&["email"], IndexType::Unique)
            },
            MigrationStep::DeletePrimaryKey { model: name("User"), primary_key: key(&["id"]) },
            MigrationStep::DeleteField { model: name("User"), field: name("id") },
            MigrationStep::DeleteField { model: name("User"), field: name("email") },
            MigrationStep::DeleteModel { model: name("User") },
        ])
    );
}

#[test]
fn steps_come_in_groups() {
    // User stays and changes, Post comes, Tag goes
    let mut tag = Model::new("Tag".to_string(), None);
    tag.add_field(scalar("label", ScalarType::String));
    let before = snapshot(vec![tag, user()]);
    let mut changed = user();
    changed.fields[1] = scalar("email", ScalarType::Json);
    changed.add_field(relation("posts", "Post"));
    // the index on the changed field goes
    changed.indices.clear();
    let after = snapshot(vec![changed, post()]);
    let steps = diff(&before, &after).unwrap();
    let position = |wanted: &MigrationStep| steps.iter().position(|s| s == wanted).unwrap();
    let create_post = position(&MigrationStep::CreateModel { model: name("Post"), database_name: None });
    let create_posts_field = position(&MigrationStep::CreateField {
        model: name("User"),
        field: relation("posts", "Post"),
    });
    let create_title = position(&MigrationStep::CreateField {
        model: name("Post"),
        field: scalar("title", ScalarType::String),
    });
    let update_email = position(&MigrationStep::UpdateField {
        model: name("User"),
        before: scalar("email", ScalarType::String),
        after: scalar("email", ScalarType::Json),
    });
    let delete_label = position(&MigrationStep::DeleteField { model: name("Tag"), field: name("label") });
    let delete_tag = position(&MigrationStep::DeleteModel { model: name("Tag") });
    let create_index = position(&MigrationStep::CreateIndex {
        model: name("Post"),
        index: index(&["title", "id"], IndexType::Normal),
    });
    let delete_index = position(&MigrationStep::DeleteIndex {
        model: name("User"),
        index: index(&["email"], IndexType::Unique),
    });
    assert_eq!(create_post, 0);
    // the index goes after the update of its field, before indexes are
    // created and before any field is deleted
    assert!(update_email < delete_index);
    assert!(create_posts_field < delete_index);
    assert!(create_title < delete_index);
    assert!(delete_index < create_index);
    assert!(delete_index < delete_label);
    assert!(create_post < create_title);
    assert!(create_post < create_posts_field);
    assert!(update_email < create_index);
    assert!(create_title < create_index);
    assert!(create_index < delete_label);
    assert!(delete_label < delete_tag);
    assert_eq!(delete_tag, steps.len() - 1);
    // one model created; two fields of User and three of Post created or
    // updated; an index deleted; an index and a key created; one field and
    // one model deleted
    assert_eq!(steps.len(), 11);
}

#[test]
fn changed_field_is_updated_with_both_shapes() {
    let before = snapshot(vec![user()]);
    let mut changed = user();
    let mut email = ScalarField::new("email", FieldArity::Optional, FieldType::scalar(ScalarType::String));
    email.database_name = Some("mail".to_string());
    changed.fields[1] = Field::ScalarField(email.clone());
    let after = snapshot(vec![changed]);
    assert_eq!(
        diff(&before, &after),
        Ok(vec![MigrationStep::UpdateField {
            model: name("User"),
            before: scalar("email", ScalarType::String),
            after: Field::ScalarField(email),
        }])
    );
}

#[test]
fn renamed_field_is_deleted_and_created() {
    let before = snapshot(vec![user()]);
    let mut changed = user();
    changed.fields[1] = scalar("mail", ScalarType::String);
    changed.indices.clear();
    let mut plain = user();
    plain.indices.clear();
    let after = snapshot(vec![changed]);
    assert_eq!(
        diff(&snapshot(vec![plain]), &after),
        Ok(vec![
            MigrationStep::CreateField { model: name("User"), field: scalar("mail", ScalarType::String) },
            MigrationStep::DeleteField { model: name("User"), field: name("email") },
        ])
    );
    // with an index on the old field, the index goes after the new field
    // has come and before the old one goes
    assert_eq!(
        diff(&before, &after),
        Ok(vec![
            MigrationStep::CreateField { model: name("User"), field: scalar("mail", ScalarType::String) },
            MigrationStep::DeleteIndex { model: name("User"), index: index(&["email"], IndexType::Unique) },
            MigrationStep::DeleteField { model: name("User"), field: name("email") },
        ])
    );
}

#[test]
fn index_is_deleted_after_the_update_of_its_field() {
    let mut m = Model::new("M".to_string(), None);
    m.add_field(scalar("f", ScalarType::Int));
    m.add_index(index(&["f"], IndexType::Normal));
    let before = snapshot(vec![m]);
    let mut n = Model::new("M".to_string(), None);
    n.add_field(scalar("f", ScalarType::String));
    let after = snapshot(vec![n]);
    assert!(before.is_valid() && after.is_valid());
    assert_eq!(
        diff(&before, &after),
        Ok(vec![
            MigrationStep::UpdateField {
                model: name("M"),
                before: scalar("f", ScalarType::Int),
                after: scalar("f", ScalarType::String),
            },
            MigrationStep::DeleteIndex { model: name("M"), index: index(&["f"], IndexType::Normal) },
        ])
    );
}

#[test]
fn index_and_key_steps_stand_between_the_steps_of_their_fields() {
    // `a` is updated and loses its index, `b` goes with its index, `c` comes
    // with an index and becomes the key in place of `a`
    let mut m = Model::new("M".to_string(), None);
    m.add_field(scalar("a", ScalarType::Int));
    m.add_field(scalar("b", ScalarType::Int));
    m.add_index(index(&["a"], IndexType::Normal));
    m.add_index(index(&["b", "a"], IndexType::Unique));
    m.primary_key = Some(key(&["a"]));
    let mut n = Model::new("M".to_string(), None);
    n.add_field(scalar("a", ScalarType::BigInt));
    n.add_field(scalar("c", ScalarType::Int));
    n.add_index(index(&["c", "a"], IndexType::Normal));
    n.primary_key = Some(key(&["c"]));
    let steps = diff(&snapshot(vec![m]), &snapshot(vec![n])).unwrap();
    let writes = |s: &MigrationStep| {
        matches!(s, MigrationStep::CreateField { .. } | MigrationStep::UpdateField { .. })
    };
    let deletes = |s: &MigrationStep| matches!(s, MigrationStep::DeleteField { .. });
    let constrains = |s: &MigrationStep| {
        matches!(
            s,
            MigrationStep::CreateIndex { .. }
                | MigrationStep::DeleteIndex { .. }
                | MigrationStep::CreatePrimaryKey { .. }
                | MigrationStep::DeletePrimaryKey { .. }
        )
    };
    assert_eq!(steps.iter().filter(|s| writes(s)).count(), 2);
    assert_eq!(steps.iter().filter(|s| deletes(s)).count(), 1);
    assert_eq!(steps.iter().filter(|s| constrains(s)).count(), 5);
    for (k, step) in steps.iter().enumerate() {
        if constrains(step) {
            for (j, other) in steps.iter().enumerate() {
                if writes(other) {
                    assert!(j < k);
                }
                if deletes(other) {
                    assert!(k < j);
                }
            }
        }
    }
}

#[test]
fn changed_index_is_deleted_and_created() {
    let before = snapshot(vec![user()]);
    let mut changed = user();
    changed.indices[0].fields[0].sort_order = Some(SortOrder::Desc);
    let after = snapshot(vec![changed.clone()]);
    assert_eq!(
        diff(&before, &after),
        Ok(vec![
            MigrationStep::DeleteIndex { model: name("User"), index: index(&["email"], IndexType::Unique) },
            MigrationStep::CreateIndex { model: name("User"), index: changed.indices[0].clone() },
        ])
    );
}

#[test]
fn changed_primary_key_is_deleted_and_created() {
    let before = snapshot(vec![user()]);
    let mut changed = user();
    changed.primary_key = Some(key(&["id", "email"]));
    let after = snapshot(vec![changed]);
    assert_eq!(
        diff(&before, &after),
        Ok(vec![
            MigrationStep::DeletePrimaryKey { model: name("User"), primary_key: key(&["id"]) },
            MigrationStep::CreatePrimaryKey { model: name("User"), primary_key: key(&["id", "email"]) },
        ])
    );
}

#[test]
fn renamed_model_is_deleted_and_created() {
    let before = snapshot(vec![user()]);
    let mut renamed = user();
    renamed.name = name("Account");
    let after = snapshot(vec![renamed]);
    let steps = diff(&before, &after).unwrap();
    assert_eq!(
        steps[0],
        MigrationStep::CreateModel { model: name("Account"), database_name: Some(name("users")) }
    );
    assert_eq!(steps[steps.len() - 1], MigrationStep::DeleteModel { model: name("User") });
    assert_eq!(steps.len(), 10);
}

fn with_composite_index(type_has_field: bool) -> Datamodel {
    let mut a = CompositeType::new("A");
    if type_has_field {
        a.add_field(scalar("field", ScalarType::String));
    }
    let mut b = Model::new("B".to_string(), None);
    b.add_field(scalar("id", ScalarType::Int));
    b.add_field(Field::CompositeField(CompositeField::new("a", FieldArity::Required, "A")));
    b.add_index(IndexDefinition {
        name: None,
        db_name: None,
        fields: vec![IndexField::new_in_model("id"), IndexField::new_in_composite_type("A", "field", "a.field")],
        tpe: IndexType::Normal,
        algorithm: None,
        defined_on_field: false,
    });
    let mut d = snapshot(vec![b]);
    d.add_composite_type(a);
    d
}

#[test]
fn path_that_no_longer_resolves_is_an_error() {
    let before = with_composite_index(true);
    let after = with_composite_index(false);
    assert_eq!(diff(&before, &before), Ok(vec![]));
    let expected = CompositeReference {
        model: name("B"),
        composite_type: name("A"),
        field: name("field"),
        full_path: name("a.field"),
    };
    match diff(&before, &after) {
        Err(InferenceError::UnresolvedCompositePath(r)) => {
            assert_eq!(r.model, expected.model);
            assert_eq!(r.composite_type, expected.composite_type);
            assert_eq!(r.field, expected.field);
            assert_eq!(r.full_path, expected.full_path);
        }
        other => panic!("expected an unresolved path, got {:?}", other),
    }
    // the later snapshot decides
    assert!(diff(&after, &before).is_ok());
}

#[test]
fn composite_references_are_collected_in_order() {
    let d = with_composite_index(true);
    let references = collect_composite_references(&d);
    assert_eq!(references.len(), 1);
    assert_eq!(references[0].full_path, "a.field");
    assert!(find_dangling_reference(&d).is_none());
    let mut without_type = with_composite_index(true);
    without_type.composite_types.clear();
    assert_eq!(find_dangling_reference(&without_type).map(|r| r.composite_type), Some(name("A")));
}

use migration_core::calculator::assume_applied;
use migration_core::database::{
    infer, infer_from_datamodels, ColumnType, ColumnTypeFamily, DatabaseMigration,
    DatabaseOperation, PlannedOperation,
};
use migration_core::destructive::{
    check, classify, type_change_narrows, DestructiveChangeDiagnostics, MigrationWarning,
    WarningKind,
};
use migration_core::differ::diff;
use migration_core::field::{
    DefaultValue, Field, FieldArity, FieldType, RelationField, ScalarField, ScalarType,
};
use migration_core::index::{
    IndexDefinition, IndexField, IndexType, PrimaryKeyDefinition, PrimaryKeyField,
};
use migration_core::model::Model;
use migration_core::schema::Datamodel;
use migration_core::steps::{InferenceError, MigrationStep};

fn scalar(name: &str, t: ScalarType) -> Field {
    Field::ScalarField(ScalarField::new(name, FieldArity::Required, FieldType::scalar(t)))
}

fn relation(name: &str, to: &str) -> Field {
    Field::RelationField(RelationField::new(name, FieldArity::Optional, to))
}

fn index(names: &[&str], tpe: IndexType) -> IndexDefinition {
    IndexDefinition {
        name: None,
        db_name: None,
        fields: names.iter().map(|n| IndexField::new_in_model(n)).collect(),
        tpe,
        algorithm: None,
        defined_on_field: false,
    }
}

fn key(names: &[&str]) -> PrimaryKeyDefinition {
    PrimaryKeyDefinition {
        name: None,
        db_name: None,
        fields: names.iter().map(|n| PrimaryKeyField::new(n)).collect(),
        defined_on_field: false,
    }
}

fn user() -> Model {
    let mut m = Model::new("User".to_string(), Some("users".to_string()));
    m.add_field(scalar("id", ScalarType::Int));
    m.add_field(scalar("email", ScalarType::String));
    m.primary_key = Some(key(&["id"]));
    m.add_index(index(&["email"], IndexType::Unique));
    m
}

fn snapshot(models: Vec<Model>) -> Datamodel {
    let mut d = Datamodel::empty();
    for m in models {
        d.add_model(m);
    }
    d
}

fn name(s: &str) -> String {
    s.to_string()
}

fn plain(family: ColumnTypeFamily) -> ColumnType {
    ColumnType { family, length: None }
}

fn planned(step: usize, operation: DatabaseOperation) -> PlannedOperation {
    PlannedOperation { step, operation }
}

fn migration(operations: Vec<DatabaseOperation>) -> DatabaseMigration {
    DatabaseMigration {
        operations: operations.into_iter().enumerate().map(|(i, o)| planned(i, o)).collect(),
    }
}

#[test]
fn created_model_becomes_table_columns_index_and_key() {
    let before = snapshot(vec![]);
    let mut m = user();
    m.add_field(relation("posts", "Post"));
    let after = snapshot(vec![m]);
    let steps = diff(&before, &after).unwrap();
    let plan = infer_from_datamodels(&before, &after, &steps).unwrap();
    assert_eq!(
        plan.operations,
        vec![
            planned(0, DatabaseOperation::CreateTable { table: name("users") }),
            planned(
                1,
                DatabaseOperation::AddColumn {
                    table: name("users"),
                    column: name("id"),
                    column_type: plain(ColumnTypeFamily::Int),
                    required: true,
                    has_default: false,
                }
            ),
            planned(
                2,
                DatabaseOperation::AddColumn {
                    table: name("users"),
                    column: name("email"),
                    column_type: plain(ColumnTypeFamily::String),
                    required: true,
                    has_default: false,
                }
            ),
            // the relation field, step 3, has no column
            planned(
                4,
                DatabaseOperation::CreateIndex {
                    table: name("users"),
                    index: index(&["email"], IndexType::Unique)
                }
            ),
            planned(
                5,
                DatabaseOperation::AddPrimaryKey { table: name("users"), primary_key: key(&["id"]) }
            ),
        ]
    );
}

#[test]
fn dropped_model_becomes_drops() {
    let before = snapshot(vec![user()]);
    let after = snapshot(vec![]);
    let steps = diff(&before, &after).unwrap();
    let plan = infer_from_datamodels(&before, &after, &steps).unwrap();
    assert_eq!(
        plan.operations,
        vec![
            planned(
                0,
                DatabaseOperation::DropIndex {
                    table: name("users"),
                    index: index(&["email"], IndexType::Unique)
                }
            ),
            planned(1, DatabaseOperation::DropPrimaryKey { table: name("users") }),
            planned(2, DatabaseOperation::DropColumn { table: name("users"), column: name("id") }),
            planned(3, DatabaseOperation::DropColumn { table: name("users"), column: name("email") }),
            planned(4, DatabaseOperation::DropTable { table: name("users") }),
        ]
    );
}

#[test]
fn field_update_fans_out() {
    let before = snapshot(vec![user()]);
    let mut changed = user();
    let mut email = ScalarField::new(
        "email",
        FieldArity::Optional,
        FieldType::Scalar(ScalarType::Int, Some(8)),
    );
    email.database_name = Some(name("mail"));
    email.default_value = Some(DefaultValue::new_single(name("0")));
    changed.fields[1] = Field::ScalarField(email);
    changed.indices.clear();
    let mut without_index = user();
    without_index.indices.clear();
    let before = {
        let _ = before;
        snapshot(vec![without_index])
    };
    let after = snapshot(vec![changed]);
    let steps = diff(&before, &after).unwrap();
    assert_eq!(steps.len(), 1);
    let plan = infer_from_datamodels(&before, &after, &steps).unwrap();
    assert_eq!(
        plan.operations,
        vec![
            planned(
                0,
                DatabaseOperation::RenameColumn { table: name("users"), from: name("email"), to: name("mail") }
            ),
            planned(
                0,
                DatabaseOperation::AlterColumnType {
                    table: name("users"),
                    column: name("mail"),
                    from: plain(ColumnTypeFamily::String),
                    to: ColumnType { family: ColumnTypeFamily::Int, length: Some(8) },
                }
            ),
            planned(
                0,
                DatabaseOperation::AlterColumnArity {
                    table: name("users"),
                    column: name("mail"),
                    from: FieldArity::Required,
                    to: FieldArity::Optional,
                }
            ),
            planned(
                0,
                DatabaseOperation::AlterColumnDefault {
                    table: name("users"),
                    column: name("mail"),
                    has_default: true
                }
            ),
        ]
    );
}

#[test]
fn field_that_becomes_a_relation_loses_its_column() {
    let before = snapshot(vec![user()]);
    let after = snapshot(vec![user()]);
    let steps = vec![
        MigrationStep::UpdateField {
            model: name("User"),
            before: scalar("email", ScalarType::String),
            after: relation("email", "Mail"),
        },
        MigrationStep::UpdateField {
            model: name("User"),
            before: relation("id", "X"),
            after: scalar("id", ScalarType::Int),
        },
        MigrationStep::UpdateField {
            model: name("User"),
            before: relation("id", "X"),
            after: relation("id", "Y"),
        },
    ];
    let plan = infer_from_datamodels(&before, &after, &steps).unwrap();
    assert_eq!(
        plan.operations,
        vec![
            planned(0, DatabaseOperation::DropColumn { table: name("users"), column: name("email") }),
            planned(
                1,
                DatabaseOperation::AddColumn {
                    table: name("users"),
                    column: name("id"),
                    column_type: plain(ColumnTypeFamily::Int),
                    required: true,
                    has_default: false,
                }
            ),
        ]
    );
}

#[test]
fn operations_keep_the_order_of_steps() {
    let mut tag = Model::new("Tag".to_string(), None);
    tag.add_field(scalar("label", ScalarType::String));
    let before = snapshot(vec![tag, user()]);
    let mut changed = user();
    changed.fields[1] = scalar("email", ScalarType::Json);
    changed.add_field(scalar("age", ScalarType::Int));
    let after = snapshot(vec![changed]);
    let steps = diff(&before, &after).unwrap();
    let plan = infer_from_datamodels(&before, &after, &steps).unwrap();
    assert!(!plan.operations.is_empty());
    for pair in plan.operations.windows(2) {
        assert!(pair[0].step <= pair[1].step);
    }
    for p in &plan.operations {
        assert!(p.step < steps.len());
    }
}

#[test]
fn step_about_an_unknown_model_is_an_error() {
    let before = snapshot(vec![user()]);
    let after = snapshot(vec![user()]);
    let unknown = Err(InferenceError::UnknownModel { model: name("Ghost") });
    let cases = vec![
        MigrationStep::CreateModel { model: name("Ghost"), database_name: None },
        MigrationStep::DeleteModel { model: name("Ghost") },
        MigrationStep::CreateField { model: name("Ghost"), field: scalar("x", ScalarType::Int) },
        MigrationStep::DeleteField { model: name("Ghost"), field: name("x") },
        MigrationStep::UpdateField {
            model: name("Ghost"),
            before: scalar("x", ScalarType::Int),
            after: scalar("x", ScalarType::String),
        },
        MigrationStep::CreateIndex { model: name("Ghost"), index: index(&["x"], IndexType::Normal) },
        MigrationStep::DeleteIndex { model: name("Ghost"), index: index(&["x"], IndexType::Normal) },
        MigrationStep::CreatePrimaryKey { model: name("Ghost"), primary_key: key(&["x"]) },
        MigrationStep::DeletePrimaryKey { model: name("Ghost"), primary_key: key(&["x"]) },
    ];
    for step in cases {
        assert_eq!(infer_from_datamodels(&before, &after, &vec![step]), unknown);
    }
}

#[test]
fn step_about_an_unknown_field_is_an_error() {
    let before = snapshot(vec![user()]);
    let after = snapshot(vec![user()]);
    let unknown = Err(InferenceError::UnknownField { model: name("User"), field: name("x") });
    let cases = vec![
        MigrationStep::CreateField { model: name("User"), field: scalar("x", ScalarType::Int) },
        MigrationStep::DeleteField { model: name("User"), field: name("x") },
        MigrationStep::UpdateField {
            model: name("User"),
            before: scalar("email", ScalarType::Int),
            after: scalar("x", ScalarType::String),
        },
    ];
    for step in cases {
        assert_eq!(infer_from_datamodels(&before, &after, &vec![step]), unknown);
    }
}

#[test]
fn first_failing_step_decides() {
    let before = snapshot(vec![user()]);
    let after = snapshot(vec![user()]);
    let steps = vec![
        MigrationStep::DeleteField { model: name("User"), field: name("email") },
        MigrationStep::DeleteField { model: name("User"), field: name("first") },
        MigrationStep::DeleteModel { model: name("Second") },
    ];
    assert_eq!(
        infer_from_datamodels(&before, &after, &steps),
        Err(InferenceError::UnknownField { model: name("User"), field: name("first") })
    );
}

#[test]
fn inference_from_assumed_state() {
    let checkpoint = snapshot(vec![]);
    let assumed = vec![
        MigrationStep::CreateModel { model: name("User"), database_name: Some(name("users")) },
        MigrationStep::CreateField { model: name("User"), field: scalar("id", ScalarType::Int) },
    ];
    let after = snapshot(vec![user()]);
    let before = assume_applied(&checkpoint, &assumed).unwrap();
    let steps = diff(&before, &after).unwrap();
    let plan = infer(&checkpoint, &assumed, &after, &steps).unwrap();
    assert_eq!(plan, infer_from_datamodels(&before, &after, &steps).unwrap());
    assert_eq!(
        plan.operations[0],
        planned(
            0,
            DatabaseOperation::AddColumn {
                table: name("users"),
                column: name("email"),
                column_type: plain(ColumnTypeFamily::String),
                required: true,
                has_default: false,
            }
        )
    );
    // the recorded snapshot is not touched
    assert_eq!(checkpoint, snapshot(vec![]));
    // assumed steps that cannot be applied are an error
    let twice = vec![assumed[0].clone(), assumed[0].clone()];
    assert_eq!(
        infer(&checkpoint, &twice, &after, &steps),
        Err(InferenceError::ModelExists { model: name("User") })
    );
}

#[test]
fn steps_are_applied_in_turn() {
    let empty = snapshot(vec![]);
    let target = snapshot(vec![user()]);
    let steps = diff(&empty, &target).unwrap();
    assert_eq!(assume_applied(&empty, &steps), Ok(target.clone()));
    let back = diff(&target, &empty).unwrap();
    assert_eq!(assume_applied(&target, &back), Ok(empty));
    assert_eq!(assume_applied(&target, &vec![]), Ok(target));
}

#[test]
fn update_and_delete_are_applied() {
    let start = snapshot(vec![user()]);
    let steps = vec![
        MigrationStep::UpdateField {
            model: name("User"),
            before: scalar("email", ScalarType::String),
            after: scalar("mail", ScalarType::Json),
        },
        MigrationStep::DeleteIndex { model: name("User"), index: index(&["email"], IndexType::Unique) },
        MigrationStep::DeletePrimaryKey { model: name("User"), primary_key: key(&["id"]) },
        MigrationStep::DeleteField { model: name("User"), field: name("id") },
        MigrationStep::CreateIndex { model: name("User"), index: index(&["mail"], IndexType::Normal) },
    ];
    let mut expected = Model::new("User".to_string(), Some("users".to_string()));
    expected.add_field(scalar("mail", ScalarType::Json));
    expected.add_index(index(&["mail"], IndexType::Normal));
    assert_eq!(assume_applied(&start, &steps), Ok(snapshot(vec![expected])));
}

#[test]
fn steps_that_cannot_be_applied() {
    let start = snapshot(vec![user()]);
    let apply = |step: MigrationStep| assume_applied(&start, &vec![step]);
    assert_eq!(
        apply(MigrationStep::CreateModel { model: name("User"), database_name: None }),
        Err(InferenceError::ModelExists { model: name("User") })
    );
    assert_eq!(
        apply(MigrationStep::DeleteModel { model: name("Ghost") }),
        Err(InferenceError::UnknownModel { model: name("Ghost") })
    );
    assert_eq!(
        apply(MigrationStep::CreateField { model: name("Ghost"), field: scalar("x", ScalarType::Int) }),
        Err(InferenceError::UnknownModel { model: name("Ghost") })
    );
    assert_eq!(
        apply(MigrationStep::CreateField { model: name("User"), field: scalar("id", ScalarType::String) }),
        Err(InferenceError::FieldExists { model: name("User"), field: name("id") })
    );
    assert_eq!(
        apply(MigrationStep::DeleteField { model: name("User"), field: name("x") }),
        Err(InferenceError::UnknownField { model: name("User"), field: name("x") })
    );
    assert_eq!(
        apply(MigrationStep::UpdateField {
            model: name("User"),
            before: scalar("x", ScalarType::Int),
            after: scalar("y", ScalarType::Int),
        }),
        Err(InferenceError::UnknownField { model: name("User"), field: name("x") })
    );
    assert_eq!(
        apply(MigrationStep::DeleteIndex { model: name("User"), index: index(&["id"], IndexType::Unique) }),
        Err(InferenceError::UnknownIndex { model: name("User") })
    );
    assert_eq!(
        apply(MigrationStep::CreatePrimaryKey { model: name("User"), primary_key: key(&["email"]) }),
        Err(InferenceError::PrimaryKeyExists { model: name("User") })
    );
    let mut keyless = user();
    keyless.primary_key = None;
    assert_eq!(
        assume_applied(
            &snapshot(vec![keyless]),
            &vec![MigrationStep::DeletePrimaryKey { model: name("User"), primary_key: key(&["id"]) }]
        ),
        Err(InferenceError::UnknownPrimaryKey { model: name("User") })
    );
}

#[test]
fn dropped_column_is_warned_of() {
    let plan = migration(vec![
        DatabaseOperation::CreateTable { table: name("t") },
        DatabaseOperation::DropColumn { table: name("users"), column: name("email") },
    ]);
    let report = check(&plan, &vec![]);
    assert_eq!(
        report.warnings,
        vec![MigrationWarning {
            step: 1,
            kind: WarningKind::ColumnDropped,
            table: name("users"),
            column: Some(name("email")),
        }]
    );
    assert!(report.errors.is_empty());
    assert!(report.has_warnings());
    assert_eq!(
        report.warnings[0].description(),
        "You are about to drop the column users.email, and the data in it will be lost."
    );
}

#[test]
fn additions_are_not_warned_of() {
    let plan = migration(vec![
        DatabaseOperation::AddColumn {
            table: name("users"),
            column: name("age"),
            column_type: plain(ColumnTypeFamily::Int),
            required: false,
            has_default: false,
        },
        DatabaseOperation::AddColumn {
            table: name("users"),
            column: name("level"),
            column_type: plain(ColumnTypeFamily::Int),
            required: true,
            has_default: true,
        },
        DatabaseOperation::AddColumn {
            table: name("fresh"),
            column: name("id"),
            column_type: plain(ColumnTypeFamily::Int),
            required: true,
            has_default: false,
        },
        DatabaseOperation::CreateIndex { table: name("users"), index: index(&["age"], IndexType::Normal) },
    ]);
    let report = check(&plan, &vec![name("users")]);
    assert_eq!(report, DestructiveChangeDiagnostics { warnings: vec![], errors: vec![] });
    assert!(!report.has_warnings());
}

#[test]
fn required_column_without_default_on_populated_table_is_warned_of() {
    let add = DatabaseOperation::AddColumn {
        table: name("users"),
        column: name("age"),
        column_type: plain(ColumnTypeFamily::Int),
        required: true,
        has_default: false,
    };
    let p = planned(3, add);
    assert_eq!(classify(&p, &vec![name("posts")]), None);
    let w = classify(&p, &vec![name("posts"), name("users")]).unwrap();
    assert_eq!(w.kind, WarningKind::RequiredColumnAdded);
    assert_eq!(w.step, 3);
    assert_eq!(
        w.description(),
        "You are about to add the required column users.age without a default value, to a table that is not empty."
    );
}

#[test]
fn every_kind_of_operation_is_classified() {
    let narrow = DatabaseOperation::AlterColumnType {
        table: name("t"),
        column: name("c"),
        from: plain(ColumnTypeFamily::BigInt),
        to: plain(ColumnTypeFamily::Int),
    };
    let widen = DatabaseOperation::AlterColumnType {
        table: name("t"),
        column: name("c"),
        from: plain(ColumnTypeFamily::Int),
        to: plain(ColumnTypeFamily::BigInt),
    };
    let plan = migration(vec![
        DatabaseOperation::DropTable { table: name("t") },
        narrow,
        widen,
        DatabaseOperation::RenameColumn { table: name("t"), from: name("a"), to: name("b") },
        DatabaseOperation::AlterColumnArity {
            table: name("t"),
            column: name("c"),
            from: FieldArity::Optional,
            to: FieldArity::Required,
        },
        DatabaseOperation::AlterColumnDefault { table: name("t"), column: name("c"), has_default: false },
        DatabaseOperation::DropIndex { table: name("t"), index: index(&["c"], IndexType::Normal) },
        DatabaseOperation::AddPrimaryKey { table: name("t"), primary_key: key(&["c"]) },
        DatabaseOperation::DropPrimaryKey { table: name("t") },
        DatabaseOperation::DropColumn { table: name("t"), column: name("c") },
    ]);
    let report = check(&plan, &vec![name("t")]);
    let found: Vec<(usize, WarningKind)> = report.warnings.iter().map(|w| (w.step, w.kind)).collect();
    assert_eq!(
        found,
        vec![
            (0, WarningKind::TableDropped),
            (1, WarningKind::TypeNarrowed),
            (9, WarningKind::ColumnDropped),
        ]
    );
    assert_eq!(
        report.warnings[0].description(),
        "You are about to drop the table t, and the data in it will be lost."
    );
    assert_eq!(
        report.warnings[1].description(),
        "You are about to narrow the type of the column t.c, and data that does not fit will be lost."
    );
    assert!(report.errors.is_empty());
}

#[test]
fn narrowing_of_types() {
    let t = |family, length| ColumnType { family, length };
    assert!(!type_change_narrows(&t(ColumnTypeFamily::Int, None), &t(ColumnTypeFamily::Int, None)));
    assert!(!type_change_narrows(&t(ColumnTypeFamily::Int, None), &t(ColumnTypeFamily::BigInt, None)));
    assert!(!type_change_narrows(&t(ColumnTypeFamily::Int, None), &t(ColumnTypeFamily::Float, None)));
    assert!(!type_change_narrows(&t(ColumnTypeFamily::Int, None), &t(ColumnTypeFamily::Decimal, None)));
    assert!(!type_change_narrows(&t(ColumnTypeFamily::BigInt, None), &t(ColumnTypeFamily::Decimal, None)));
    assert!(!type_change_narrows(&t(ColumnTypeFamily::DateTime, None), &t(ColumnTypeFamily::String, None)));
    assert!(!type_change_narrows(&t(ColumnTypeFamily::Enum, None), &t(ColumnTypeFamily::String, None)));
    assert!(type_change_narrows(&t(ColumnTypeFamily::BigInt, None), &t(ColumnTypeFamily::Int, None)));
    assert!(type_change_narrows(&t(ColumnTypeFamily::BigInt, None), &t(ColumnTypeFamily::Float, None)));
    assert!(type_change_narrows(&t(ColumnTypeFamily::String, None), &t(ColumnTypeFamily::Int, None)));
    assert!(type_change_narrows(&t(ColumnTypeFamily::Json, None), &t(ColumnTypeFamily::String, None)));
    assert!(type_change_narrows(&t(ColumnTypeFamily::Bytes, None), &t(ColumnTypeFamily::String, None)));
    assert!(type_change_narrows(&t(ColumnTypeFamily::Float, None), &t(ColumnTypeFamily::Decimal, None)));
    // lengths
    assert!(type_change_narrows(&t(ColumnTypeFamily::String, None), &t(ColumnTypeFamily::String, Some(10))));
    assert!(type_change_narrows(&t(ColumnTypeFamily::String, Some(11)), &t(ColumnTypeFamily::String, Some(10))));
    assert!(!type_change_narrows(&t(ColumnTypeFamily::String, Some(10)), &t(ColumnTypeFamily::String, Some(10))));
    assert!(!type_change_narrows(&t(ColumnTypeFamily::String, Some(10)), &t(ColumnTypeFamily::String, Some(11))));
    assert!(!type_change_narrows(&t(ColumnTypeFamily::String, Some(10)), &t(ColumnTypeFamily::String, None)));
    assert!(type_change_narrows(&t(ColumnTypeFamily::Int, None), &t(ColumnTypeFamily::String, Some(3))));
}

#[test]
fn inferred_drop_is_warned_of() {
    let before = snapshot(vec![user()]);
    let mut changed = user();
    changed.fields.remove(1);
    changed.indices.clear();
    let after = snapshot(vec![changed]);
    let steps = diff(&before, &after).unwrap();
    let plan = infer_from_datamodels(&before, &after, &steps).unwrap();
    let report = check(&plan, &vec![name("users")]);
    assert_eq!(report.warnings.len(), 1);
    assert_eq!(report.warnings[0].kind, WarningKind::ColumnDropped);
    assert_eq!(report.warnings[0].column, Some(name("email")));
}

#[test]
fn inferred_steps_always_have_a_migration() {
    let mut tag = Model::new("Tag".to_string(), None);
    tag.add_field(scalar("label", ScalarType::String));
    tag.add_field(relation("owner", "User"));
    tag.add_index(index(&["label"], IndexType::Fulltext));
    let mut changed = user();
    changed.fields[0] = relation("id", "Tag");
    changed.primary_key = None;
    let snapshots = vec![
        snapshot(vec![]),
        snapshot(vec![user()]),
        snapshot(vec![tag.clone(), user()]),
        snapshot(vec![changed, tag]),
    ];
    for before in &snapshots {
        for after in &snapshots {
            let steps = diff(before, after).unwrap();
            assert!(infer_from_datamodels(before, after, &steps).is_ok());
        }
    }
}

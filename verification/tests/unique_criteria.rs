use migration_core::field::FieldArity;
use migration_core::unique_criteria::{
    CompositeTypeId, CriteriaFieldLocation, FieldFacts, FieldId, FieldWithArgs, IndexFieldWalker,
    ModelId, ParserDatabase,
};

fn facts(arity: FieldArity, is_unsupported: bool) -> FieldFacts {
    FieldFacts { arity, is_unsupported }
}

/// Model 0: [required, optional, (relation), unsupported, list];
/// composite type 0: [required, optional].
fn db() -> ParserDatabase {
    let mut db = ParserDatabase::new();
    db.scalar_fields.push(vec![
        Some(facts(FieldArity::Required, false)),
        Some(facts(FieldArity::Optional, false)),
        None,
        Some(facts(FieldArity::Required, true)),
        Some(facts(FieldArity::List, false)),
    ]);
    db.composite_type_fields.push(vec![
        facts(FieldArity::Required, false),
        facts(FieldArity::Optional, false),
    ]);
    db
}

fn in_model(field: u32) -> FieldWithArgs {
    FieldWithArgs { field_location: CriteriaFieldLocation::InModel(FieldId(field)) }
}

fn in_type(ctid: u32, field: u32) -> FieldWithArgs {
    FieldWithArgs {
        field_location: CriteriaFieldLocation::InCompositeType(CompositeTypeId(ctid), FieldId(field)),
    }
}

#[test]
fn required_supported_fields_are_strict() {
    let db = db();
    let fields = [in_model(0), in_type(0, 0), in_model(4)];
    let c = db.unique_criteria(ModelId(0), &fields).unwrap();
    assert!(c.is_strict_criteria());
    assert!(!c.has_optional_fields());
    assert!(!c.has_unsupported_fields());
}

#[test]
fn optional_field_is_not_strict() {
    let db = db();
    let fields = [in_model(0), in_model(1)];
    let c = db.unique_criteria(ModelId(0), &fields).unwrap();
    assert!(!c.is_strict_criteria());
    assert!(c.has_optional_fields());
    assert!(!c.has_unsupported_fields());
}

#[test]
fn optional_composite_field_is_not_strict() {
    let db = db();
    let fields = [in_type(0, 1)];
    let c = db.unique_criteria(ModelId(0), &fields).unwrap();
    assert!(!c.is_strict_criteria());
    assert!(c.has_optional_fields());
}

#[test]
fn unsupported_field_is_not_strict() {
    let db = db();
    let fields = [in_model(3), in_model(0)];
    let c = db.unique_criteria(ModelId(0), &fields).unwrap();
    assert!(!c.is_strict_criteria());
    assert!(!c.has_optional_fields());
    assert!(c.has_unsupported_fields());
}

#[test]
fn empty_criteria_is_strict() {
    let db = db();
    let fields: [FieldWithArgs; 0] = [];
    let c = db.unique_criteria(ModelId(0), &fields).unwrap();
    assert!(c.is_strict_criteria());
    assert_eq!(c.fields().len(), 0);
}

#[test]
fn fields_are_resolved_in_order() {
    let db = db();
    let fields = [in_type(0, 1), in_model(3)];
    let c = db.unique_criteria(ModelId(0), &fields).unwrap();
    let walkers = c.fields();
    assert_eq!(walkers.len(), 2);
    match walkers[0] {
        IndexFieldWalker::Composite(w) => {
            assert_eq!(w.ctid, CompositeTypeId(0));
            assert_eq!(w.field_id, FieldId(1));
            assert_eq!(*w.field, facts(FieldArity::Optional, false));
        }
        IndexFieldWalker::Scalar(_) => panic!("a field of a composite type"),
    }
    match walkers[1] {
        IndexFieldWalker::Scalar(w) => {
            assert_eq!(w.model_id, ModelId(0));
            assert_eq!(w.field_id, FieldId(3));
            assert_eq!(*w.scalar_field, facts(FieldArity::Required, true));
        }
        IndexFieldWalker::Composite(_) => panic!("a field of the model"),
    }
    assert!(walkers[0].is_optional());
    assert!(!walkers[0].is_unsupported());
    assert!(walkers[1].is_unsupported());
}

#[test]
fn unknown_fields_give_no_criteria() {
    let db = db();
    // no such field, a field that is not scalar, no such model, no such type
    assert!(db.unique_criteria(ModelId(0), &[in_model(5)]).is_none());
    assert!(db.unique_criteria(ModelId(0), &[in_model(2)]).is_none());
    assert!(db.unique_criteria(ModelId(1), &[in_model(0)]).is_none());
    assert!(db.unique_criteria(ModelId(0), &[in_type(1, 0)]).is_none());
    assert!(db.unique_criteria(ModelId(0), &[in_type(0, 2)]).is_none());
    assert_eq!(db.find(ModelId(0), CriteriaFieldLocation::InModel(FieldId(1))),
        Some(facts(FieldArity::Optional, false)));
    assert_eq!(db.find(ModelId(0), CriteriaFieldLocation::InModel(FieldId(2))), None);
}

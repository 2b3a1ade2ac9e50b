//! What holds of every inference of migration steps.

use crate::differ::{
    changed_field, changed_fields, composite_references, created_constraints, created_index,
    created_key, created_model, dangling, diff_outcome, diff_steps, dropped_constraints,
    dropped_field, dropped_fields, dropped_index, dropped_key, dropped_model,
    first_dangling_reference, outcome_view, reference_of, references_of_index,
    references_of_model,
};
use crate::database::{operations_of, plan_of, plan_of_first};
use crate::model::{named, ModelView};
use crate::schema::{model_named, Datamodel, DatamodelView};
use crate::seqs::{
    lemma_first_none, lemma_first_position, lemma_flat_map_all, lemma_flat_map_has,
    lemma_flat_map_nothing,
};
use crate::steps::{CompositeReferenceView, InferenceError, MigrationStep, StepView};
use vstd::prelude::*;

verus! {

/// The group of a step: models created come first, then fields created and
/// updated, indexes and primary keys deleted, indexes and primary keys
/// created, fields deleted, and models deleted last.
pub open spec fn rank(s: StepView) -> int {
    match s {
        StepView::CreateModel { .. } => 0,
        StepView::CreateField { .. } => 1,
        StepView::UpdateField { .. } => 1,
        StepView::DeleteIndex { .. } => 2,
        StepView::DeletePrimaryKey { .. } => 2,
        StepView::CreateIndex { .. } => 3,
        StepView::CreatePrimaryKey { .. } => 3,
        StepView::DeleteField { .. } => 4,
        StepView::DeleteModel { .. } => 5,
    }
}

spec fn ranked(r: int) -> spec_fn(StepView) -> bool {
    |s: StepView| rank(s) == r
}

spec fn deletes_model_missing_from(after: DatamodelView) -> spec_fn(StepView) -> bool {
    |s: StepView| s matches StepView::DeleteModel { model } && !after.has_model(model)
}

proof fn lemma_created_models_rank(before: DatamodelView, after: DatamodelView)
    ensures
        forall|k: int|
            0 <= k < after.models.flat_map(created_model(before)).len() ==> rank(
                #[trigger] after.models.flat_map(created_model(before))[k],
            ) == 0,
{
    lemma_flat_map_all(after.models, created_model(before), ranked(0));
    assert forall|k: int|
        0 <= k < after.models.flat_map(created_model(before)).len() implies rank(
        #[trigger] after.models.flat_map(created_model(before))[k],
    ) == 0 by {
        assert(ranked(0)(after.models.flat_map(created_model(before))[k]));
    }
}

proof fn lemma_dropped_constraints_rank(before: DatamodelView, after: DatamodelView)
    ensures
        forall|k: int|
            0 <= k < before.models.flat_map(dropped_constraints(after)).len() ==> rank(
                #[trigger] before.models.flat_map(dropped_constraints(after))[k],
            ) == 2,
{
    let f = dropped_constraints(after);
    assert forall|i: int, j: int|
        0 <= i < before.models.len() && 0 <= j < f(before.models[i]).len() implies ranked(2)(
        #[trigger] f(before.models[i])[j],
    ) by {
        let b = before.models[i];
        let other = after.find_model(b.name);
        lemma_flat_map_all(b.indices, dropped_index(b.name, other), ranked(2));
        let n = b.indices.flat_map(dropped_index(b.name, other)).len();
        if j < n {
            assert(ranked(2)(b.indices.flat_map(dropped_index(b.name, other))[j]));
        } else {
            assert(f(b)[j] == dropped_key(b, other)[j - n]);
        }
    }
    lemma_flat_map_all(before.models, f, ranked(2));
    assert forall|k: int| 0 <= k < before.models.flat_map(f).len() implies rank(
        #[trigger] before.models.flat_map(f)[k],
    ) == 2 by {
        assert(ranked(2)(before.models.flat_map(f)[k]));
    }
}

proof fn lemma_changed_fields_rank(before: DatamodelView, after: DatamodelView)
    ensures
        forall|k: int|
            0 <= k < after.models.flat_map(changed_fields(before)).len() ==> rank(
                #[trigger] after.models.flat_map(changed_fields(before))[k],
            ) == 1,
{
    let f = changed_fields(before);
    assert forall|i: int, j: int|
        0 <= i < after.models.len() && 0 <= j < f(after.models[i]).len() implies ranked(1)(
        #[trigger] f(after.models[i])[j],
    ) by {
        let a = after.models[i];
        let other = before.find_model(a.name);
        lemma_flat_map_all(a.fields, changed_field(a.name, other), ranked(1));
        assert(ranked(1)(a.fields.flat_map(changed_field(a.name, other))[j]));
    }
    lemma_flat_map_all(after.models, f, ranked(1));
    assert forall|k: int| 0 <= k < after.models.flat_map(f).len() implies rank(
        #[trigger] after.models.flat_map(f)[k],
    ) == 1 by {
        assert(ranked(1)(after.models.flat_map(f)[k]));
    }
}

proof fn lemma_created_constraints_rank(before: DatamodelView, after: DatamodelView)
    ensures
        forall|k: int|
            0 <= k < after.models.flat_map(created_constraints(before)).len() ==> rank(
                #[trigger] after.models.flat_map(created_constraints(before))[k],
            ) == 3,
{
    let f = created_constraints(before);
    assert forall|i: int, j: int|
        0 <= i < after.models.len() && 0 <= j < f(after.models[i]).len() implies ranked(3)(
        #[trigger] f(after.models[i])[j],
    ) by {
        let a = after.models[i];
        let other = before.find_model(a.name);
        lemma_flat_map_all(a.indices, created_index(a.name, other), ranked(3));
        let n = a.indices.flat_map(created_index(a.name, other)).len();
        if j < n {
            assert(ranked(3)(a.indices.flat_map(created_index(a.name, other))[j]));
        } else {
            assert(f(a)[j] == created_key(a, other)[j - n]);
        }
    }
    lemma_flat_map_all(after.models, f, ranked(3));
    assert forall|k: int| 0 <= k < after.models.flat_map(f).len() implies rank(
        #[trigger] after.models.flat_map(f)[k],
    ) == 3 by {
        assert(ranked(3)(after.models.flat_map(f)[k]));
    }
}

proof fn lemma_dropped_fields_rank(before: DatamodelView, after: DatamodelView)
    ensures
        forall|k: int|
            0 <= k < before.models.flat_map(dropped_fields(after)).len() ==> rank(
                #[trigger] before.models.flat_map(dropped_fields(after))[k],
            ) == 4,
{
    let f = dropped_fields(after);
    assert forall|i: int, j: int|
        0 <= i < before.models.len() && 0 <= j < f(before.models[i]).len() implies ranked(4)(
        #[trigger] f(before.models[i])[j],
    ) by {
        let b = before.models[i];
        let other = after.find_model(b.name);
        lemma_flat_map_all(b.fields, dropped_field(b.name, other), ranked(4));
        assert(ranked(4)(b.fields.flat_map(dropped_field(b.name, other))[j]));
    }
    lemma_flat_map_all(before.models, f, ranked(4));
    assert forall|k: int| 0 <= k < before.models.flat_map(f).len() implies rank(
        #[trigger] before.models.flat_map(f)[k],
    ) == 4 by {
        assert(ranked(4)(before.models.flat_map(f)[k]));
    }
}

proof fn lemma_dropped_models_rank(before: DatamodelView, after: DatamodelView)
    ensures
        forall|k: int|
            0 <= k < before.models.flat_map(dropped_model(after)).len() ==> {
                &&& rank(#[trigger] before.models.flat_map(dropped_model(after))[k]) == 5
                &&& !after.has_model(before.models.flat_map(dropped_model(after))[k].model())
            },
{
    let f = dropped_model(after);
    lemma_flat_map_all(before.models, f, deletes_model_missing_from(after));
    assert forall|k: int| 0 <= k < before.models.flat_map(f).len() implies {
        &&& rank(#[trigger] before.models.flat_map(f)[k]) == 5
        &&& !after.has_model(before.models.flat_map(f)[k].model())
    } by {
        assert(deletes_model_missing_from(after)(before.models.flat_map(f)[k]));
    }
}

/// The steps come group by group: no step stands before a step of an
/// earlier group.
pub proof fn lemma_steps_are_grouped(before: DatamodelView, after: DatamodelView, i: int, j: int)
    requires
        0 <= i <= j < diff_steps(before, after).len(),
    ensures
        rank(diff_steps(before, after)[i]) <= rank(diff_steps(before, after)[j]),
{
    lemma_created_models_rank(before, after);
    lemma_dropped_constraints_rank(before, after);
    lemma_changed_fields_rank(before, after);
    lemma_created_constraints_rank(before, after);
    lemma_dropped_fields_rank(before, after);
    lemma_dropped_models_rank(before, after);
}

/// A step about an index or a primary key stands after every step that
/// creates or updates a field and before every step that deletes one,
/// whatever the fields are that the index or the key is on: fields of the
/// model, or fields that a path reaches in a composite type.
pub proof fn lemma_constraints_stand_between_field_steps(
    before: DatamodelView,
    after: DatamodelView,
    k: int,
    j: int,
)
    requires
        0 <= k < diff_steps(before, after).len(),
        0 <= j < diff_steps(before, after).len(),
        diff_steps(before, after)[k].is_about_constraint(),
    ensures
        diff_steps(before, after)[j] is CreateField || diff_steps(before, after)[j]
            is UpdateField ==> j < k,
        diff_steps(before, after)[j] is DeleteField ==> k < j,
{
    if j <= k {
        lemma_steps_are_grouped(before, after, j, k);
    }
    if k <= j {
        lemma_steps_are_grouped(before, after, k, j);
    }
}

/// No step about an index or a primary key refers to a field that is not
/// yet as it will be, or no longer there: where such a step names the field
/// `field` of its model, every step that creates or updates that field
/// stands before it, and every step that deletes that field stands after it.
pub proof fn lemma_constraint_follows_its_fields_and_precedes_their_deletion(
    before: DatamodelView,
    after: DatamodelView,
    k: int,
    j: int,
    field: Seq<char>,
)
    requires
        0 <= k < diff_steps(before, after).len(),
        0 <= j < diff_steps(before, after).len(),
        diff_steps(before, after)[k].names_field(field),
        diff_steps(before, after)[j].model() == diff_steps(before, after)[k].model(),
    ensures
        diff_steps(before, after)[j].writes_field(field) ==> j < k,
        diff_steps(before, after)[j].deletes_field(field) ==> k < j,
{
    lemma_constraints_stand_between_field_steps(before, after, k, j);
}

/// The creation of a field never precedes the creation of its model: where
/// the steps create a model and a field of it, the model comes first.
pub proof fn lemma_model_is_created_before_its_fields(
    before: DatamodelView,
    after: DatamodelView,
    i: int,
    j: int,
)
    requires
        0 <= i < diff_steps(before, after).len(),
        0 <= j < diff_steps(before, after).len(),
        diff_steps(before, after)[i] is CreateModel,
        diff_steps(before, after)[j] is CreateField,
        diff_steps(before, after)[j].model() == diff_steps(before, after)[i].model(),
    ensures
        i < j,
{
    if j <= i {
        lemma_steps_are_grouped(before, after, j, i);
    }
}

/// The deletion of a model never precedes the deletion of its fields: where
/// the steps delete a model, the deletion of each field that the model had
/// in the earlier snapshot stands before.
pub proof fn lemma_fields_are_deleted_before_their_model(
    before: DatamodelView,
    after: DatamodelView,
    i: int,
    m: int,
    f: int,
)
    requires
        0 <= i < diff_steps(before, after).len(),
        diff_steps(before, after)[i] is DeleteModel,
        0 <= m < before.models.len(),
        before.models[m].name == diff_steps(before, after)[i].model(),
        0 <= f < before.models[m].fields.len(),
    ensures
        exists|j: int|
            0 <= j < i && diff_steps(before, after)[j] == (StepView::DeleteField {
                model: before.models[m].name,
                field: before.models[m].fields[f].name,
            }),
{
    lemma_created_models_rank(before, after);
    lemma_dropped_constraints_rank(before, after);
    lemma_changed_fields_rank(before, after);
    lemma_created_constraints_rank(before, after);
    lemma_dropped_fields_rank(before, after);
    lemma_dropped_models_rank(before, after);
    let steps = diff_steps(before, after);
    let models_created = after.models.flat_map(created_model(before));
    let fields_changed = after.models.flat_map(changed_fields(before));
    let constraints_dropped = before.models.flat_map(dropped_constraints(after));
    let constraints_created = after.models.flat_map(created_constraints(before));
    let fields_dropped = before.models.flat_map(dropped_fields(after));
    let models_dropped = before.models.flat_map(dropped_model(after));
    let fields_dropped_from = models_created.len() + fields_changed.len()
        + constraints_dropped.len() + constraints_created.len();
    let models_dropped_from = fields_dropped_from + fields_dropped.len();
    // the deletion of a model stands in the last group, and only of a model
    // that the later snapshot does not hold
    assert(i >= models_dropped_from);
    assert(steps[i] == models_dropped[i - models_dropped_from]);
    let b = before.models[m];
    assert(!after.has_model(b.name));
    assert(after.find_model(b.name) is None);
    // so each of its fields is deleted, in the group before
    let g = dropped_field(b.name, None);
    assert(g(b.fields[f]) =~= seq![
        StepView::DeleteField { model: b.name, field: b.fields[f].name },
    ]);
    lemma_flat_map_has(b.fields, g, f, 0);
    let inner = b.fields.flat_map(g);
    let x = choose|x: int| 0 <= x < inner.len() && inner[x] == g(b.fields[f])[0];
    assert(dropped_fields(after)(before.models[m]) == inner);
    lemma_flat_map_has(before.models, dropped_fields(after), m, x);
    let y = choose|y: int| 0 <= y < fields_dropped.len() && fields_dropped[y] == inner[x];
    assert(steps[fields_dropped_from + y] == fields_dropped[y]);
}

/// What the outcome of an inference is depends on the content of the two
/// snapshots and on nothing else: two inferences on snapshots of the same
/// content give the same steps in the same order, or the same error.
pub proof fn lemma_diff_is_deterministic(
    before1: Datamodel,
    after1: Datamodel,
    r1: Result<Vec<MigrationStep>, InferenceError>,
    before2: Datamodel,
    after2: Datamodel,
    r2: Result<Vec<MigrationStep>, InferenceError>,
)
    requires
        before1@ == before2@,
        after1@ == after2@,
        outcome_view(r1) == diff_outcome(before1@, after1@),
        outcome_view(r2) == diff_outcome(before2@, after2@),
    ensures
        outcome_view(r1) == outcome_view(r2),
{
}

proof fn lemma_model_finds_itself(d: DatamodelView, i: int)
    requires
        d.model_names_unique(),
        0 <= i < d.models.len(),
    ensures
        d.has_model(d.models[i].name),
        d.find_model(d.models[i].name) == Some(d.models[i]),
{
    let p = model_named(d.models[i].name);
    assert(p(d.models[i]));
    assert forall|j: int| 0 <= j < i implies !p(#[trigger] d.models[j]) by {}
    lemma_first_position(d.models, p, i);
}

proof fn lemma_field_finds_itself(m: ModelView, j: int)
    requires
        m.field_names_unique(),
        0 <= j < m.fields.len(),
    ensures
        m.find_field(m.fields[j].name) == Some(m.fields[j]),
{
    let p = named(m.fields[j].name);
    assert(p(m.fields[j]));
    assert forall|k: int| 0 <= k < j implies !p(#[trigger] m.fields[k]) by {}
    lemma_first_position(m.fields, p, j);
}

/// A valid snapshot has no reference of an index into a composite type that
/// leads nowhere.
pub proof fn lemma_valid_has_no_dangling_reference(a: DatamodelView)
    requires
        a.valid(),
    ensures
        first_dangling_reference(a) is None,
{
    let sound = |r: CompositeReferenceView| !dangling(a)(r);
    assert forall|i: int, j: int|
        0 <= i < a.models.len() && 0 <= j < references_of_model()(a.models[i]).len() implies sound(
        #[trigger] references_of_model()(a.models[i])[j],
    ) by {
        let m = a.models[i];
        assert(m.wf() && a.model_resolves(m));
        assert forall|x: int, y: int|
            0 <= x < m.indices.len() && 0 <= y < references_of_index(m.name)(
                m.indices[x],
            ).len() implies sound(#[trigger] references_of_index(m.name)(m.indices[x])[y]) by {
            let index = m.indices[x];
            assert forall|u: int, v: int|
                0 <= u < index.fields.len() && 0 <= v < reference_of(m.name)(
                    index.fields[u],
                ).len() implies sound(#[trigger] reference_of(m.name)(index.fields[u])[v]) by {
                assert(a.resolves(m, m.indices[x].fields[u].location));
            }
            lemma_flat_map_all(index.fields, reference_of(m.name), sound);
            assert(sound(index.fields.flat_map(reference_of(m.name))[y]));
        }
        lemma_flat_map_all(m.indices, references_of_index(m.name), sound);
        assert(sound(m.indices.flat_map(references_of_index(m.name))[j]));
    }
    lemma_flat_map_all(a.models, references_of_model(), sound);
    assert forall|k: int| 0 <= k < composite_references(a).len() implies !dangling(a)(
        #[trigger] composite_references(a)[k],
    ) by {
        assert(sound(composite_references(a)[k]));
    }
    lemma_first_none(composite_references(a), dangling(a));
}

/// A valid snapshot differs from itself in nothing: the inference from it to
/// itself succeeds, with no step.
pub proof fn lemma_diff_of_same_is_empty(a: DatamodelView)
    requires
        a.valid(),
    ensures
        diff_steps(a, a) == Seq::<StepView>::empty(),
        diff_outcome(a, a) == Ok::<Seq<StepView>, crate::steps::InferenceErrorView>(Seq::empty()),
{
    lemma_valid_has_no_dangling_reference(a);
    assert forall|i: int| 0 <= i < a.models.len() implies (#[trigger] created_model(a)(
        a.models[i],
    )).len() == 0 by {
        lemma_model_finds_itself(a, i);
    }
    assert forall|i: int| 0 <= i < a.models.len() implies (#[trigger] dropped_model(a)(
        a.models[i],
    )).len() == 0 by {
        lemma_model_finds_itself(a, i);
    }
    assert forall|i: int| 0 <= i < a.models.len() implies (#[trigger] dropped_constraints(a)(
        a.models[i],
    )).len() == 0 by {
        let m = a.models[i];
        lemma_model_finds_itself(a, i);
        assert forall|k: int| 0 <= k < m.indices.len() implies (#[trigger] dropped_index(
            m.name,
            Some(m),
        )(m.indices[k])).len() == 0 by {
            assert(m.indices.contains(m.indices[k]));
        }
        lemma_flat_map_nothing(m.indices, dropped_index(m.name, Some(m)));
    }
    assert forall|i: int| 0 <= i < a.models.len() implies (#[trigger] created_constraints(a)(
        a.models[i],
    )).len() == 0 by {
        let m = a.models[i];
        lemma_model_finds_itself(a, i);
        assert forall|k: int| 0 <= k < m.indices.len() implies (#[trigger] created_index(
            m.name,
            Some(m),
        )(m.indices[k])).len() == 0 by {
            assert(m.indices.contains(m.indices[k]));
        }
        lemma_flat_map_nothing(m.indices, created_index(m.name, Some(m)));
    }
    assert forall|i: int| 0 <= i < a.models.len() implies (#[trigger] changed_fields(a)(
        a.models[i],
    )).len() == 0 by {
        let m = a.models[i];
        lemma_model_finds_itself(a, i);
        assert(m.wf());
        assert forall|k: int| 0 <= k < m.fields.len() implies (#[trigger] changed_field(
            m.name,
            Some(m),
        )(m.fields[k])).len() == 0 by {
            lemma_field_finds_itself(m, k);
        }
        lemma_flat_map_nothing(m.fields, changed_field(m.name, Some(m)));
    }
    assert forall|i: int| 0 <= i < a.models.len() implies (#[trigger] dropped_fields(a)(
        a.models[i],
    )).len() == 0 by {
        let m = a.models[i];
        lemma_model_finds_itself(a, i);
        assert(m.wf());
        assert forall|k: int| 0 <= k < m.fields.len() implies (#[trigger] dropped_field(
            m.name,
            Some(m),
        )(m.fields[k])).len() == 0 by {
            lemma_field_finds_itself(m, k);
        }
        lemma_flat_map_nothing(m.fields, dropped_field(m.name, Some(m)));
    }
    lemma_flat_map_nothing(a.models, created_model(a));
    lemma_flat_map_nothing(a.models, dropped_constraints(a));
    lemma_flat_map_nothing(a.models, changed_fields(a));
    lemma_flat_map_nothing(a.models, created_constraints(a));
    lemma_flat_map_nothing(a.models, dropped_fields(a));
    lemma_flat_map_nothing(a.models, dropped_model(a));
    assert(diff_steps(a, a) =~= Seq::<StepView>::empty());
}

/// Steps for which the database has operations, between the two snapshots.
pub open spec fn realisable(before: DatamodelView, after: DatamodelView) -> spec_fn(
    StepView,
) -> bool {
    |s: StepView| operations_of(before, after, s) is Ok
}

proof fn lemma_created_models_are_realisable(before: DatamodelView, after: DatamodelView)
    requires
        after.model_names_unique(),
    ensures
        forall|k: int|
            0 <= k < after.models.flat_map(created_model(before)).len() ==> realisable(
                before,
                after,
            )(#[trigger] after.models.flat_map(created_model(before))[k]),
{
    let f = created_model(before);
    assert forall|i: int, j: int|
        0 <= i < after.models.len() && 0 <= j < f(after.models[i]).len() implies realisable(
        before,
        after,
    )(#[trigger] f(after.models[i])[j]) by {
        lemma_model_finds_itself(after, i);
    }
    lemma_flat_map_all(after.models, f, realisable(before, after));
}

proof fn lemma_dropped_constraints_are_realisable(before: DatamodelView, after: DatamodelView)
    requires
        before.model_names_unique(),
    ensures
        forall|k: int|
            0 <= k < before.models.flat_map(dropped_constraints(after)).len() ==> realisable(
                before,
                after,
            )(#[trigger] before.models.flat_map(dropped_constraints(after))[k]),
{
    let f = dropped_constraints(after);
    let ok = realisable(before, after);
    assert forall|i: int, j: int|
        0 <= i < before.models.len() && 0 <= j < f(before.models[i]).len() implies ok(
        #[trigger] f(before.models[i])[j],
    ) by {
        let b = before.models[i];
        let other = after.find_model(b.name);
        lemma_model_finds_itself(before, i);
        lemma_flat_map_all(b.indices, dropped_index(b.name, other), ok);
        let n = b.indices.flat_map(dropped_index(b.name, other)).len();
        if j < n {
            assert(ok(b.indices.flat_map(dropped_index(b.name, other))[j]));
        } else {
            assert(f(b)[j] == dropped_key(b, other)[j - n]);
        }
    }
    lemma_flat_map_all(before.models, f, ok);
}

proof fn lemma_changed_fields_are_realisable(before: DatamodelView, after: DatamodelView)
    requires
        after.model_names_unique(),
    ensures
        forall|k: int|
            0 <= k < after.models.flat_map(changed_fields(before)).len() ==> realisable(
                before,
                after,
            )(#[trigger] after.models.flat_map(changed_fields(before))[k]),
{
    let f = changed_fields(before);
    let ok = realisable(before, after);
    assert forall|i: int, j: int|
        0 <= i < after.models.len() && 0 <= j < f(after.models[i]).len() implies ok(
        #[trigger] f(after.models[i])[j],
    ) by {
        let a = after.models[i];
        let other = before.find_model(a.name);
        lemma_model_finds_itself(after, i);
        assert forall|x: int, y: int|
            0 <= x < a.fields.len() && 0 <= y < changed_field(a.name, other)(
                a.fields[x],
            ).len() implies ok(#[trigger] changed_field(a.name, other)(a.fields[x])[y]) by {
            assert(named(a.fields[x].name)(a.fields[x]));
            assert(a.has_field(a.fields[x].name));
        }
        lemma_flat_map_all(a.fields, changed_field(a.name, other), ok);
        assert(ok(a.fields.flat_map(changed_field(a.name, other))[j]));
    }
    lemma_flat_map_all(after.models, f, ok);
}

proof fn lemma_created_constraints_are_realisable(before: DatamodelView, after: DatamodelView)
    requires
        after.model_names_unique(),
    ensures
        forall|k: int|
            0 <= k < after.models.flat_map(created_constraints(before)).len() ==> realisable(
                before,
                after,
            )(#[trigger] after.models.flat_map(created_constraints(before))[k]),
{
    let f = created_constraints(before);
    let ok = realisable(before, after);
    assert forall|i: int, j: int|
        0 <= i < after.models.len() && 0 <= j < f(after.models[i]).len() implies ok(
        #[trigger] f(after.models[i])[j],
    ) by {
        let a = after.models[i];
        let other = before.find_model(a.name);
        lemma_model_finds_itself(after, i);
        lemma_flat_map_all(a.indices, created_index(a.name, other), ok);
        let n = a.indices.flat_map(created_index(a.name, other)).len();
        if j < n {
            assert(ok(a.indices.flat_map(created_index(a.name, other))[j]));
        } else {
            assert(f(a)[j] == created_key(a, other)[j - n]);
        }
    }
    lemma_flat_map_all(after.models, f, ok);
}

proof fn lemma_dropped_fields_are_realisable(before: DatamodelView, after: DatamodelView)
    requires
        before.model_names_unique(),
    ensures
        forall|k: int|
            0 <= k < before.models.flat_map(dropped_fields(after)).len() ==> realisable(
                before,
                after,
            )(#[trigger] before.models.flat_map(dropped_fields(after))[k]),
{
    let f = dropped_fields(after);
    let ok = realisable(before, after);
    assert forall|i: int, j: int|
        0 <= i < before.models.len() && 0 <= j < f(before.models[i]).len() implies ok(
        #[trigger] f(before.models[i])[j],
    ) by {
        let b = before.models[i];
        let other = after.find_model(b.name);
        lemma_model_finds_itself(before, i);
        assert forall|x: int, y: int|
            0 <= x < b.fields.len() && 0 <= y < dropped_field(b.name, other)(
                b.fields[x],
            ).len() implies ok(#[trigger] dropped_field(b.name, other)(b.fields[x])[y]) by {
            assert(named(b.fields[x].name)(b.fields[x]));
            assert(b.has_field(b.fields[x].name));
        }
        lemma_flat_map_all(b.fields, dropped_field(b.name, other), ok);
        assert(ok(b.fields.flat_map(dropped_field(b.name, other))[j]));
    }
    lemma_flat_map_all(before.models, f, ok);
}

proof fn lemma_dropped_models_are_realisable(before: DatamodelView, after: DatamodelView)
    requires
        before.model_names_unique(),
    ensures
        forall|k: int|
            0 <= k < before.models.flat_map(dropped_model(after)).len() ==> realisable(
                before,
                after,
            )(#[trigger] before.models.flat_map(dropped_model(after))[k]),
{
    let f = dropped_model(after);
    assert forall|i: int, j: int|
        0 <= i < before.models.len() && 0 <= j < f(before.models[i]).len() implies realisable(
        before,
        after,
    )(#[trigger] f(before.models[i])[j]) by {
        lemma_model_finds_itself(before, i);
    }
    lemma_flat_map_all(before.models, f, realisable(before, after));
}

/// Between snapshots whose model names are unique, the database has
/// operations for every step that is inferred: each step is about a model
/// and a field that the snapshot it is read against holds.
pub proof fn lemma_inferred_steps_are_realisable(
    before: DatamodelView,
    after: DatamodelView,
    k: int,
)
    requires
        before.model_names_unique(),
        after.model_names_unique(),
        0 <= k < diff_steps(before, after).len(),
    ensures
        operations_of(before, after, diff_steps(before, after)[k]) is Ok,
{
    lemma_created_models_are_realisable(before, after);
    lemma_dropped_constraints_are_realisable(before, after);
    lemma_changed_fields_are_realisable(before, after);
    lemma_created_constraints_are_realisable(before, after);
    lemma_dropped_fields_are_realisable(before, after);
    lemma_dropped_models_are_realisable(before, after);
    assert(realisable(before, after)(diff_steps(before, after)[k]));
}

proof fn lemma_realisable_steps_have_a_migration(
    before: DatamodelView,
    after: DatamodelView,
    steps: Seq<StepView>,
    n: nat,
)
    requires
        n <= steps.len(),
        forall|k: int|
            0 <= k < steps.len() ==> operations_of(before, after, #[trigger] steps[k]) is Ok,
    ensures
        plan_of_first(before, after, steps, n) is Ok,
    decreases n,
{
    if n > 0 {
        lemma_realisable_steps_have_a_migration(before, after, steps, (n - 1) as nat);
        assert(operations_of(before, after, steps[n - 1]) is Ok);
    }
}

/// Between snapshots whose model names are unique, the steps that are
/// inferred can always be carried out: there is a database migration for
/// them.
pub proof fn lemma_inferred_steps_have_a_migration(before: DatamodelView, after: DatamodelView)
    requires
        before.model_names_unique(),
        after.model_names_unique(),
    ensures
        plan_of(before, after, diff_steps(before, after)) is Ok,
{
    let steps = diff_steps(before, after);
    assert forall|k: int| 0 <= k < steps.len() implies operations_of(
        before,
        after,
        #[trigger] steps[k],
    ) is Ok by {
        lemma_inferred_steps_are_realisable(before, after, k);
    }
    lemma_realisable_steps_have_a_migration(before, after, steps, steps.len());
}

} // verus!

//! The tables in which the server keeps contexts, plans and results by their handles.

use dashmap::DashMap;
use datafusion::logical_expr::LogicalPlan;
use datafusion::prelude::SessionContext;
use std::sync::Arc;
use vstd::prelude::*;

use crate::engine::RecordBatch;

verus! {

/// A table of `dashmap`. Its methods take it by a shared reference; here those that change it
/// take it by a mutable one.
#[verifier::external_type_specification]
#[verifier::external_body]
#[verifier::reject_recursive_types(K)]
#[verifier::reject_recursive_types(V)]
#[verifier::reject_recursive_types(S)]
pub struct ExDashMap<K, V, S>(DashMap<K, V, S>);

/// The contexts in a table, by their tokens.
pub uninterp spec fn contexts_of(
    table: DashMap<String, Arc<SessionContext>>,
) -> Map<Seq<char>, Arc<SessionContext>>;

/// The plans in a table, by their handles.
pub uninterp spec fn plans_of(
    table: DashMap<String, LogicalPlan>,
) -> Map<Seq<char>, LogicalPlan>;

/// The results in a table, by their handles.
pub uninterp spec fn results_of(
    table: DashMap<String, Vec<RecordBatch>>,
) -> Map<Seq<char>, Seq<RecordBatch>>;

/// What is kept in a new table.
pub open spec fn nothing<T>() -> Map<Seq<char>, T> {
    Map::empty()
}

/// What is kept under a key.
pub open spec fn entry<T>(map: Map<Seq<char>, T>, key: Seq<char>) -> Option<T> {
    if map.dom().contains(key) {
        Some(map[key])
    } else {
        None
    }
}

/// An optional result, seen as the batches that it is made of.
pub open spec fn result_view(result: Option<Vec<RecordBatch>>) -> Option<Seq<RecordBatch>> {
    match result {
        Some(batches) => Some(batches@),
        None => None,
    }
}

/// `DashMap::new`: a table with nothing in it.
#[verifier::external_body]
pub(crate) fn new_contexts() -> (r: DashMap<String, Arc<SessionContext>>)
    ensures
        contexts_of(r) == nothing::<Arc<SessionContext>>(),
{
    DashMap::new()
}

/// `DashMap::new`: a table with nothing in it.
#[verifier::external_body]
pub(crate) fn new_plans() -> (r: DashMap<String, LogicalPlan>)
    ensures
        plans_of(r) == nothing::<LogicalPlan>(),
{
    DashMap::new()
}

/// `DashMap::new`: a table with nothing in it.
#[verifier::external_body]
pub(crate) fn new_results() -> (r: DashMap<String, Vec<RecordBatch>>)
    ensures
        results_of(r) == nothing::<Seq<RecordBatch>>(),
{
    DashMap::new()
}

/// `DashMap::insert`: keeps a context under a key, in place of what was there.
#[verifier::external_body]
pub(crate) fn insert_context(
    table: &mut DashMap<String, Arc<SessionContext>>,
    key: String,
    context: Arc<SessionContext>,
)
    ensures
        contexts_of(*final(table)) == contexts_of(*old(table)).insert(key@, context),
{
    table.insert(key, context);
}

/// `DashMap::insert`: keeps a plan under a key, in place of what was there.
#[verifier::external_body]
pub(crate) fn insert_plan(
    table: &mut DashMap<String, LogicalPlan>,
    key: String,
    plan: LogicalPlan,
)
    ensures
        plans_of(*final(table)) == plans_of(*old(table)).insert(key@, plan),
{
    table.insert(key, plan);
}

/// `DashMap::insert`: keeps a result under a key, in place of what was there.
#[verifier::external_body]
pub(crate) fn insert_result(
    table: &mut DashMap<String, Vec<RecordBatch>>,
    key: String,
    batches: Vec<RecordBatch>,
)
    ensures
        results_of(*final(table)) == results_of(*old(table)).insert(key@, batches@),
{
    table.insert(key, batches);
}

/// `DashMap::get`: a clone of the pointer to the context that is kept under a key.
#[verifier::external_body]
pub(crate) fn find_context(
    table: &DashMap<String, Arc<SessionContext>>,
    key: &str,
) -> (r: Option<Arc<SessionContext>>)
    ensures
        r == entry(contexts_of(*table), key@),
{
    table.get(key).map(|found| found.value().clone())
}

/// `DashMap::get`: a clone of the plan that is kept under a key.
#[verifier::external_body]
pub(crate) fn find_plan(table: &DashMap<String, LogicalPlan>, key: &str) -> (r: Option<
    LogicalPlan,
>)
    ensures
        r == entry(plans_of(*table), key@),
{
    table.get(key).map(|found| found.value().clone())
}

/// `DashMap::get`: a clone of the result that is kept under a key.
#[verifier::external_body]
pub(crate) fn find_result(
    table: &DashMap<String, Vec<RecordBatch>>,
    key: &str,
) -> (r: Option<Vec<RecordBatch>>)
    ensures
        result_view(r) == entry(results_of(*table), key@),
{
    table.get(key).map(|found| found.value().clone())
}

/// `DashMap::remove`: keeps no plan under a key any more.
#[verifier::external_body]
pub(crate) fn delete_plan(table: &mut DashMap<String, LogicalPlan>, key: &str)
    ensures
        plans_of(*final(table)) == plans_of(*old(table)).remove(key@),
{
    table.remove(key);
}

/// `DashMap::remove`: keeps no result under a key any more.
#[verifier::external_body]
pub(crate) fn delete_result(table: &mut DashMap<String, Vec<RecordBatch>>, key: &str)
    ensures
        results_of(*final(table)) == results_of(*old(table)).remove(key@),
{
    table.remove(key);
}

/// The plans after one of them was replaced: where there was none, none is added.
pub open spec fn replaced(
    plans: Map<Seq<char>, LogicalPlan>,
    key: Seq<char>,
    plan: LogicalPlan,
) -> Map<Seq<char>, LogicalPlan> {
    if plans.dom().contains(key) {
        plans.insert(key, plan)
    } else {
        plans
    }
}

/// `DashMap::get_mut`: writes over the plan that is kept under a key, and says whether there was
/// one.
#[verifier::external_body]
pub(crate) fn replace_plan(
    table: &mut DashMap<String, LogicalPlan>,
    key: &str,
    plan: LogicalPlan,
) -> (r: bool)
    ensures
        r == plans_of(*old(table)).dom().contains(key@),
        plans_of(*final(table)) == replaced(plans_of(*old(table)), key@, plan),
{
    table.get_mut(key).map(|mut found| *found = plan).is_some()
}

} // verus!

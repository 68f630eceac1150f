//! Giving values to the parameters of a plan, and which plans take them.

use arrow_schema::ArrowError;
use datafusion::common::tree_node::TreeNode;
use datafusion::common::tree_node::TreeNodeRecursion;
use datafusion::logical_expr::expr::Placeholder;
use datafusion::logical_expr::Expr;
use datafusion::logical_expr::LogicalPlan;
use datafusion::scalar::ScalarValue;
use vstd::prelude::*;
use vstd::string::StrSliceExecFns;

use crate::engine::texts_view;

verus! {

/// An expression of the query engine, carried through as it is.
#[verifier::external_type_specification]
#[verifier::external_body]
pub struct ExExpr(Expr);

/// What an expression is, as far as the types of placeholders depend on it.
#[derive(Debug, Clone, Copy, PartialEq, Eq, Structural)]
pub enum ExprShape {
    Column,
    Literal,
    Cast,
    TypedPlaceholder,
    UntypedPlaceholder,
    Binary,
    Between,
    Other,
}

/// Whether a node of a plan is one that does not come with the query engine.
pub uninterp spec fn is_foreign(plan: LogicalPlan) -> bool;

/// The plans that a node of a plan reads from.
pub uninterp spec fn inputs_of(plan: LogicalPlan) -> Seq<LogicalPlan>;

/// The expressions that a node of a plan holds.
pub uninterp spec fn expressions_of(plan: LogicalPlan) -> Seq<Expr>;

/// The expressions that an expression is made of, the left or tested one first.
pub uninterp spec fn parts_of(expr: Expr) -> Seq<Expr>;

/// The plan inside an expression that is a subquery.
pub uninterp spec fn subquery_of(expr: Expr) -> Option<LogicalPlan>;

/// The id of an expression that is a placeholder.
pub uninterp spec fn placeholder_id(expr: Expr) -> Option<Seq<char>>;

/// Whether the type of an expression does not depend on what it is made of.
pub uninterp spec fn has_fixed_type(expr: Expr) -> bool;

/// How many of the expressions of a node of a plan are pairs of keys that a join puts together,
/// and that are no expressions of the plan's own. They come first.
pub uninterp spec fn key_pairs(plan: LogicalPlan) -> nat;

/// What an expression is.
pub uninterp spec fn shape_of(expr: Expr) -> ExprShape;

/// The plan that comes of giving texts to the parameters of a plan, or what is wrong with them.
pub uninterp spec fn bound_plan(plan: LogicalPlan, values: Seq<Seq<char>>) -> Result<
    LogicalPlan,
    Seq<char>,
>;

/// Plans that are referred to, seen as plans.
pub open spec fn plans_view(plans: Seq<&LogicalPlan>) -> Seq<LogicalPlan> {
    plans.map_values(|plan: &LogicalPlan| *plan)
}

/// An optional text, seen as its characters.
pub open spec fn id_view(id: Option<String>) -> Option<Seq<char>> {
    match id {
        Some(text) => Some(text@),
        None => None,
    }
}

/// A plan or the text of an error.
pub open spec fn plan_view(r: Result<LogicalPlan, String>) -> Result<LogicalPlan, Seq<char>> {
    match r {
        Ok(plan) => Ok(plan),
        Err(fault) => Err(fault@),
    }
}

/// Whether the id of a placeholder can be read behind its first byte.
pub open spec fn is_plain_id(id: Seq<char>) -> bool {
    id.len() > 0 ==> (id[0] as u32) < 0x80
}

/// Whether the type of an expression is found without looking into it.
pub open spec fn has_plain_type(expr: Expr) -> bool {
    match shape_of(expr) {
        ExprShape::Column | ExprShape::Literal | ExprShape::Cast | ExprShape::Between => true,
        ExprShape::TypedPlaceholder | ExprShape::UntypedPlaceholder => true,
        ExprShape::Binary | ExprShape::Other => has_fixed_type(expr),
    }
}

/// Whether a placeholder without a type, if it is one, gets its type from an expression whose
/// type is found without looking into it.
pub open spec fn gets_plain_type(placeholder: Expr, from: Expr) -> bool {
    shape_of(placeholder) == ExprShape::UntypedPlaceholder ==> has_plain_type(from)
}

/// Whether the placeholders right under an expression get their types, if they get any, from
/// expressions whose types are found without looking into them: each side of an operator from
/// the other, and the bounds of a range from what is tested.
pub open spec fn types_plainly(expr: Expr) -> bool {
    let parts = parts_of(expr);
    match shape_of(expr) {
        ExprShape::Binary => {
            &&& parts.len() == 2
            &&& gets_plain_type(parts[0], parts[1])
            &&& gets_plain_type(parts[1], parts[0])
        },
        ExprShape::Between => {
            &&& parts.len() == 3
            &&& gets_plain_type(parts[1], parts[0])
            &&& gets_plain_type(parts[2], parts[0])
        },
        _ => true,
    }
}

/// Whether the placeholders in an expression, down to a depth that it does not go beyond, can
/// be given values.
pub open spec fn expr_binds(expr: Expr, depth: nat) -> bool
    decreases depth,
{
    &&& depth > 0
    &&& placeholder_id(expr) matches Some(id) ==> is_plain_id(id)
    &&& types_plainly(expr)
    &&& forall|i: int|
        0 <= i < parts_of(expr).len() ==> expr_binds(
            #[trigger] parts_of(expr)[i],
            (depth - 1) as nat,
        )
    &&& subquery_of(expr) matches Some(plan) ==> plan_binds(plan, (depth - 1) as nat)
}

/// Whether the placeholders in both keys of a pair, down to a depth that they do not go beyond,
/// can be given values. The pair itself is not typed.
pub open spec fn pair_binds(pair: Expr, depth: nat) -> bool
    decreases depth,
{
    &&& depth > 0
    &&& forall|i: int|
        0 <= i < parts_of(pair).len() ==> expr_binds(
            #[trigger] parts_of(pair)[i],
            (depth - 1) as nat,
        )
}

/// Whether the placeholders in a plan, down to a depth that it does not go beyond, can be given
/// values.
pub open spec fn plan_binds(plan: LogicalPlan, depth: nat) -> bool
    decreases depth,
{
    &&& depth > 0
    &&& !is_foreign(plan)
    &&& forall|i: int|
        0 <= i < inputs_of(plan).len() ==> plan_binds(
            #[trigger] inputs_of(plan)[i],
            (depth - 1) as nat,
        )
    &&& forall|i: int|
        0 <= i < expressions_of(plan).len() ==> if i < key_pairs(plan) {
            pair_binds(#[trigger] expressions_of(plan)[i], (depth - 1) as nat)
        } else {
            expr_binds(expressions_of(plan)[i], (depth - 1) as nat)
        }
}

/// A depth that no plan in memory reaches.
pub const DEPTH: u64 = 0xffff_ffff_ffff_ffff;

/// Whether the parameters of a plan can be given values: all its nodes come with the query
/// engine, every placeholder has an id that can be read, and none gets its type from an
/// expression that has to be looked into.
pub open spec fn is_bindable(plan: LogicalPlan) -> bool {
    plan_binds(plan, DEPTH as nat)
}

/// Tells `LogicalPlan::Extension` from the other nodes: those that it holds do not come with
/// the query engine.
#[verifier::external_body]
fn foreign(plan: &LogicalPlan) -> (r: bool)
    ensures
        r == is_foreign(*plan),
{
    matches!(plan, LogicalPlan::Extension(_))
}

/// `LogicalPlan::inputs`, which depend on the plan alone where the node is the engine's own.
#[verifier::external_body]
fn inputs(plan: &LogicalPlan) -> (r: Vec<&LogicalPlan>)
    requires
        !is_foreign(*plan),
    ensures
        plans_view(r@) == inputs_of(*plan),
{
    plan.inputs()
}

/// `LogicalPlan::expressions`, which depend on the plan alone where the node is the engine's
/// own.
#[verifier::external_body]
fn expressions(plan: &LogicalPlan) -> (r: Vec<Expr>)
    requires
        !is_foreign(*plan),
    ensures
        r@ == expressions_of(*plan),
{
    plan.expressions()
}

/// The number of pairs in `on` of `LogicalPlan::Join`. `LogicalPlan::expressions` makes an
/// equality of each, in front of the filter; other nodes have none.
#[verifier::external_body]
fn count_key_pairs(plan: &LogicalPlan) -> (r: usize)
    ensures
        r == key_pairs(*plan),
{
    match plan {
        LogicalPlan::Join(join) => join.on.len(),
        _ => 0,
    }
}

/// `TreeNode::apply_children` of an expression, which hands out the parts of it in their order.
#[verifier::external_body]
fn parts(expr: &Expr) -> (r: Vec<Expr>)
    ensures
        r@ == parts_of(*expr),
{
    let mut parts = Vec::new();
    let _ = expr.apply_children(|part| {
        parts.push(part.clone());
        Ok(TreeNodeRecursion::Continue)
    });
    parts
}

/// The plan inside `Expr::Exists`, `Expr::InSubquery` and `Expr::ScalarSubquery`; other
/// expressions hold none.
#[verifier::external_body]
fn subquery(expr: &Expr) -> (r: Option<LogicalPlan>)
    ensures
        r == subquery_of(*expr),
{
    match expr {
        Expr::Exists(exists) => Some(exists.subquery.subquery.as_ref().clone()),
        Expr::InSubquery(within) => Some(within.subquery.subquery.as_ref().clone()),
        Expr::ScalarSubquery(scalar) => Some(scalar.subquery.as_ref().clone()),
        _ => None,
    }
}

/// The `id` of `Expr::Placeholder`; other expressions have none.
#[verifier::external_body]
fn placeholder(expr: &Expr) -> (r: Option<String>)
    ensures
        id_view(r) == placeholder_id(*expr),
{
    match expr {
        Expr::Placeholder(placeholder) => Some(placeholder.id.clone()),
        _ => None,
    }
}

/// Tells the variants of `Expr` apart that the types of placeholders depend on.
#[verifier::external_body]
fn shape(expr: &Expr) -> (r: ExprShape)
    ensures
        r == shape_of(*expr),
{
    match expr {
        Expr::Column(_) => ExprShape::Column,
        Expr::Literal(_) => ExprShape::Literal,
        Expr::Cast(_) | Expr::TryCast(_) => ExprShape::Cast,
        Expr::Placeholder(Placeholder { data_type: None, .. }) => ExprShape::UntypedPlaceholder,
        Expr::Placeholder(_) => ExprShape::TypedPlaceholder,
        Expr::BinaryExpr(_) => ExprShape::Binary,
        Expr::Between(_) => ExprShape::Between,
        _ => ExprShape::Other,
    }
}

/// Tells the variants of `Expr` apart whose type `ExprSchemable::get_type` gives without asking
/// for that of a part: predicates, sets of groups, and what names its own type.
#[verifier::external_body]
fn fixed_type(expr: &Expr) -> (r: bool)
    ensures
        r == has_fixed_type(*expr),
{
    matches!(
        expr,
        Expr::Not(_) | Expr::IsNull(_) | Expr::IsNotNull(_) | Expr::IsTrue(_) | Expr::IsNotTrue(_)
            | Expr::IsFalse(_) | Expr::IsNotFalse(_) | Expr::IsUnknown(_)
            | Expr::IsNotUnknown(_) | Expr::Like(_) | Expr::SimilarTo(_) | Expr::InList(_)
            | Expr::Exists(_) | Expr::InSubquery(_) | Expr::GroupingSet(_)
            | Expr::ScalarVariable(..) | Expr::OuterReferenceColumn(..)
    )
}

/// `LogicalPlan::with_param_values` with one text for each parameter: the plan or the error
/// depends on the plan and the texts alone. The id of a placeholder is read behind its first
/// byte, which has to be a whole character. A placeholder without a type is given that of the
/// expression beside it; to find it is sure to end well only where that is a column, a literal, a
/// cast, a placeholder, a range or one whose type is fixed. Nodes that do not come with the engine rebuild themselves by code that
/// is not known here, so a plan may hold none. The plan that comes of it takes values again: it
/// has the same nodes and expressions but for placeholders, which became literals. The error is handed on as arrow's, whose message
/// is returned.
#[verifier::external_body]
pub(crate) fn bind(plan: LogicalPlan, values: Vec<String>) -> (r: Result<LogicalPlan, String>)
    requires
        is_bindable(plan),
    ensures
        plan_view(r) == bound_plan(plan, texts_view(values@)),
        r is Ok ==> is_bindable(r->Ok_0),
{
    let values: Vec<ScalarValue> = values.into_iter().map(ScalarValue::from).collect();
    plan.with_param_values(values).map_err(|e| ArrowError::from(e).to_string())
}

/// Whether the id of a placeholder can be read behind its first byte.
fn plain_id(id: &str) -> (r: bool)
    ensures
        r == is_plain_id(id@),
{
    if id.unicode_len() == 0 {
        return true;
    }
    let first: u32 = id.get_char(0) as u32;
    first < 0x80
}

/// Whether the type of an expression is found without looking into it.
fn plain_type(expr: &Expr) -> (r: bool)
    ensures
        r == has_plain_type(*expr),
{
    match shape(expr) {
        ExprShape::Column | ExprShape::Literal | ExprShape::Cast | ExprShape::Between => true,
        ExprShape::TypedPlaceholder | ExprShape::UntypedPlaceholder => true,
        ExprShape::Binary | ExprShape::Other => fixed_type(expr),
    }
}

/// Whether a placeholder without a type, if it is one, gets its type from an expression whose
/// type is found without looking into it.
fn plainly_typed(placeholder: &Expr, from: &Expr) -> (r: bool)
    ensures
        r == gets_plain_type(*placeholder, *from),
{
    match shape(placeholder) {
        ExprShape::UntypedPlaceholder => plain_type(from),
        _ => true,
    }
}

/// Whether the placeholders in an expression can be given values.
fn expr_bindable(expr: &Expr, depth: u64) -> (r: bool)
    ensures
        r == expr_binds(*expr, depth as nat),
    decreases depth,
{
    if depth == 0 {
        return false;
    }
    if let Some(id) = placeholder(expr) {
        if !plain_id(id.as_str()) {
            return false;
        }
    }
    let parts = parts(expr);
    let typed = match shape(expr) {
        ExprShape::Binary => parts.len() == 2 && plainly_typed(&parts[0], &parts[1])
            && plainly_typed(&parts[1], &parts[0]),
        ExprShape::Between => parts.len() == 3 && plainly_typed(&parts[1], &parts[0])
            && plainly_typed(&parts[2], &parts[0]),
        _ => true,
    };
    if !typed {
        return false;
    }
    let mut i: usize = 0;
    while i < parts.len()
        invariant
            i <= parts@.len(),
            parts@ == parts_of(*expr),
            depth > 0,
            forall|j: int|
                0 <= j < i ==> expr_binds(#[trigger] parts_of(*expr)[j], (depth - 1) as nat),
        decreases parts@.len() - i,
    {
        if !expr_bindable(&parts[i], depth - 1) {
            assert(!expr_binds(parts_of(*expr)[i as int], (depth - 1) as nat));
            return false;
        }
        i = i + 1;
    }
    match subquery(expr) {
        None => true,
        Some(plan) => plan_bindable(&plan, depth - 1),
    }
}

/// Whether the placeholders in both keys of a pair can be given values.
fn pair_bindable(pair: &Expr, depth: u64) -> (r: bool)
    ensures
        r == pair_binds(*pair, depth as nat),
    decreases depth,
{
    if depth == 0 {
        return false;
    }
    let parts = parts(pair);
    let mut i: usize = 0;
    while i < parts.len()
        invariant
            i <= parts@.len(),
            parts@ == parts_of(*pair),
            depth > 0,
            forall|j: int|
                0 <= j < i ==> expr_binds(#[trigger] parts_of(*pair)[j], (depth - 1) as nat),
        decreases parts@.len() - i,
    {
        if !expr_bindable(&parts[i], depth - 1) {
            assert(!expr_binds(parts_of(*pair)[i as int], (depth - 1) as nat));
            return false;
        }
        i = i + 1;
    }
    true
}

/// Whether the placeholders in a plan can be given values.
fn plan_bindable(plan: &LogicalPlan, depth: u64) -> (r: bool)
    ensures
        r == plan_binds(*plan, depth as nat),
    decreases depth,
{
    if depth == 0 || foreign(plan) {
        return false;
    }
    let inputs = inputs(plan);
    let mut i: usize = 0;
    while i < inputs.len()
        invariant
            i <= inputs@.len(),
            plans_view(inputs@) == inputs_of(*plan),
            depth > 0,
            forall|j: int|
                0 <= j < i ==> plan_binds(#[trigger] inputs_of(*plan)[j], (depth - 1) as nat),
        decreases inputs@.len() - i,
    {
        assert(inputs_of(*plan)[i as int] == *inputs@[i as int]);
        if !plan_bindable(inputs[i], depth - 1) {
            return false;
        }
        i = i + 1;
    }
    let expressions = expressions(plan);
    let pairs: usize = count_key_pairs(plan);
    let mut k: usize = 0;
    while k < expressions.len()
        invariant
            k <= expressions@.len(),
            expressions@ == expressions_of(*plan),
            pairs == key_pairs(*plan),
            depth > 0,
            forall|j: int|
                0 <= j < k ==> if j < key_pairs(*plan) {
                    pair_binds(#[trigger] expressions_of(*plan)[j], (depth - 1) as nat)
                } else {
                    expr_binds(expressions_of(*plan)[j], (depth - 1) as nat)
                },
        decreases expressions@.len() - k,
    {
        let binds = if k < pairs {
            pair_bindable(&expressions[k], depth - 1)
        } else {
            expr_bindable(&expressions[k], depth - 1)
        };
        if !binds {
            assert(expressions@[k as int] == expressions_of(*plan)[k as int]);
            return false;
        }
        k = k + 1;
    }
    true
}

/// Whether the parameters of a plan can be given values.
pub fn bindable(plan: &LogicalPlan) -> (r: bool)
    ensures
        r == is_bindable(*plan),
{
    plan_bindable(plan, DEPTH)
}

} // verus!

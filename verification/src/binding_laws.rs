//! Which plans can be given values.

use datafusion::logical_expr::Expr;
use datafusion::logical_expr::LogicalPlan;
use vstd::prelude::*;

use crate::binding::expr_binds;
use crate::binding::expressions_of;
use crate::binding::has_fixed_type;
use crate::binding::id_view;
use crate::binding::inputs_of;
use crate::binding::is_bindable;
use crate::binding::is_foreign;
use crate::binding::key_pairs;
use crate::binding::pair_binds;
use crate::binding::parts_of;
use crate::binding::placeholder_id;
use crate::binding::plan_binds;
use crate::binding::plan_view;
use crate::binding::plans_view;
use crate::binding::shape_of;
use crate::binding::subquery_of;
use crate::binding::ExprShape;

verus! {

proof fn lemma_expr_binds_deeper(expr: Expr, n: nat, m: nat)
    requires
        expr_binds(expr, n),
        n <= m,
    ensures
        expr_binds(expr, m),
    decreases n,
{
    assert forall|i: int| 0 <= i < parts_of(expr).len() implies expr_binds(
        #[trigger] parts_of(expr)[i],
        (m - 1) as nat,
    ) by {
        lemma_expr_binds_deeper(parts_of(expr)[i], (n - 1) as nat, (m - 1) as nat);
    }
    if let Some(plan) = subquery_of(expr) {
        lemma_plan_binds_deeper(plan, (n - 1) as nat, (m - 1) as nat);
    }
}

proof fn lemma_pair_binds_deeper(pair: Expr, n: nat, m: nat)
    requires
        pair_binds(pair, n),
        n <= m,
    ensures
        pair_binds(pair, m),
    decreases n,
{
    assert forall|i: int| 0 <= i < parts_of(pair).len() implies expr_binds(
        #[trigger] parts_of(pair)[i],
        (m - 1) as nat,
    ) by {
        lemma_expr_binds_deeper(parts_of(pair)[i], (n - 1) as nat, (m - 1) as nat);
    }
}

proof fn lemma_plan_binds_deeper(plan: LogicalPlan, n: nat, m: nat)
    requires
        plan_binds(plan, n),
        n <= m,
    ensures
        plan_binds(plan, m),
    decreases n,
{
    assert forall|i: int| 0 <= i < inputs_of(plan).len() implies plan_binds(
        #[trigger] inputs_of(plan)[i],
        (m - 1) as nat,
    ) by {
        lemma_plan_binds_deeper(inputs_of(plan)[i], (n - 1) as nat, (m - 1) as nat);
    }
    assert forall|i: int| 0 <= i < expressions_of(plan).len() implies if i < key_pairs(plan) {
        pair_binds(#[trigger] expressions_of(plan)[i], (m - 1) as nat)
    } else {
        expr_binds(expressions_of(plan)[i], (m - 1) as nat)
    } by {
        let expr = expressions_of(plan)[i];
        if i < key_pairs(plan) {
            lemma_pair_binds_deeper(expr, (n - 1) as nat, (m - 1) as nat);
        } else {
            lemma_expr_binds_deeper(expr, (n - 1) as nat, (m - 1) as nat);
        }
    }
}

/// A plan that binds down to some depth can be given values: how deep it is does not matter.
pub proof fn law_depth_does_not_matter(plan: LogicalPlan, n: nat)
    requires
        plan_binds(plan, n),
        n <= 0xffff_ffff_ffff_ffff,
    ensures
        is_bindable(plan),
{
    lemma_plan_binds_deeper(plan, n, 0xffff_ffff_ffff_ffff);
}

/// A node that comes with the query engine binds where all that it reads from and all that it
/// holds binds, however much that is.
pub proof fn law_plan_binds_where_its_parts_do(plan: LogicalPlan, n: nat)
    requires
        !is_foreign(plan),
        forall|i: int|
            0 <= i < inputs_of(plan).len() ==> plan_binds(#[trigger] inputs_of(plan)[i], n),
        forall|i: int|
            0 <= i < expressions_of(plan).len() ==> expr_binds(
                #[trigger] expressions_of(plan)[i],
                n,
            ),
    ensures
        plan_binds(plan, n + 1),
{
    assert forall|i: int| 0 <= i < expressions_of(plan).len() implies if i < key_pairs(plan) {
        pair_binds(#[trigger] expressions_of(plan)[i], n)
    } else {
        expr_binds(expressions_of(plan)[i], n)
    } by {
        assert(expr_binds(expressions_of(plan)[i], n));
    }
}

/// An expression binds where all that it is made of binds, its id, if it is a placeholder, begins
/// with a character of one byte, and no placeholder right under it has to find a type.
pub proof fn law_expression_binds_where_its_parts_do(expr: Expr, n: nat)
    requires
        placeholder_id(expr) matches Some(id) ==> id.len() == 0 || (id[0] as u32) < 128,
        forall|i: int|
            0 <= i < parts_of(expr).len() ==> expr_binds(#[trigger] parts_of(expr)[i], n)
                && shape_of(parts_of(expr)[i]) != ExprShape::UntypedPlaceholder,
        subquery_of(expr) matches Some(plan) ==> plan_binds(plan, n),
        shape_of(expr) == ExprShape::Binary ==> parts_of(expr).len() == 2,
        shape_of(expr) == ExprShape::Between ==> parts_of(expr).len() == 3,
    ensures
        expr_binds(expr, n + 1),
{
}

/// A placeholder beside a column, a literal, a cast, a range, a placeholder or what has a fixed
/// type binds under an operator.
pub proof fn law_placeholder_binds_beside_plain_types(expr: Expr, n: nat, i: int, j: int)
    requires
        shape_of(expr) == ExprShape::Binary,
        parts_of(expr).len() == 2,
        i == 0 && j == 1 || i == 1 && j == 0,
        placeholder_id(expr) is None,
        subquery_of(expr) is None,
        expr_binds(parts_of(expr)[0], n),
        expr_binds(parts_of(expr)[1], n),
        shape_of(parts_of(expr)[i]) == ExprShape::UntypedPlaceholder,
        shape_of(parts_of(expr)[j]) == ExprShape::Column || shape_of(parts_of(expr)[j])
            == ExprShape::Literal || shape_of(parts_of(expr)[j]) == ExprShape::Cast || shape_of(
            parts_of(expr)[j],
        ) == ExprShape::Between || shape_of(parts_of(expr)[j]) == ExprShape::TypedPlaceholder
            || shape_of(parts_of(expr)[j]) == ExprShape::UntypedPlaceholder || (shape_of(
            parts_of(expr)[j],
        ) == ExprShape::Other && has_fixed_type(parts_of(expr)[j])),
    ensures
        expr_binds(expr, n + 1),
{
    assert forall|k: int| 0 <= k < parts_of(expr).len() implies expr_binds(
        #[trigger] parts_of(expr)[k],
        n,
    ) by {
        assert(k == 0 || k == 1);
    }
}

/// The bounds of a range bind, though they have no type, where what is tested is a column, a
/// literal, a cast, a range, a placeholder or has a fixed type.
pub proof fn law_bounds_bind_beside_plain_types(expr: Expr, n: nat)
    requires
        shape_of(expr) == ExprShape::Between,
        parts_of(expr).len() == 3,
        placeholder_id(expr) is None,
        subquery_of(expr) is None,
        expr_binds(parts_of(expr)[0], n),
        expr_binds(parts_of(expr)[1], n),
        expr_binds(parts_of(expr)[2], n),
        shape_of(parts_of(expr)[0]) != ExprShape::Binary,
        shape_of(parts_of(expr)[0]) == ExprShape::Other ==> has_fixed_type(parts_of(expr)[0]),
    ensures
        expr_binds(expr, n + 1),
{
    assert forall|k: int| 0 <= k < parts_of(expr).len() implies expr_binds(
        #[trigger] parts_of(expr)[k],
        n,
    ) by {
        assert(k == 0 || k == 1 || k == 2);
    }
}

/// The keys of a join give each other no type: a pair binds where both of its keys do.
pub proof fn law_keys_of_a_join_bind_apart(pair: Expr, n: nat)
    requires
        forall|i: int|
            0 <= i < parts_of(pair).len() ==> expr_binds(#[trigger] parts_of(pair)[i], n),
    ensures
        pair_binds(pair, n + 1),
{
}

/// What binds holds no node that does not come with the query engine, and no placeholder that
/// could not be given a value.
pub proof fn law_what_binds_is_safe_to_bind(plan: LogicalPlan, expr: Expr, n: nat, i: int)
    ensures
        plan_binds(plan, n) ==> n > 0 && !is_foreign(plan),
        plan_binds(plan, n) && 0 <= i < inputs_of(plan).len() ==> plan_binds(
            inputs_of(plan)[i],
            (n - 1) as nat,
        ),
        plan_binds(plan, n) && key_pairs(plan) <= i < expressions_of(plan).len() ==> expr_binds(
            expressions_of(plan)[i],
            (n - 1) as nat,
        ),
        expr_binds(expr, n) && placeholder_id(expr) is Some && placeholder_id(expr)->0.len() > 0
            ==> (placeholder_id(expr)->0[0] as u32) < 128,
        expr_binds(expr, n) && 0 <= i < parts_of(expr).len() ==> expr_binds(
            parts_of(expr)[i],
            (n - 1) as nat,
        ),
        expr_binds(expr, n) && subquery_of(expr) is Some ==> plan_binds(
            subquery_of(expr)->0,
            (n - 1) as nat,
        ),
        expr_binds(expr, n) && shape_of(expr) == ExprShape::Binary && shape_of(parts_of(expr)[0])
            == ExprShape::UntypedPlaceholder ==> shape_of(parts_of(expr)[1]) != ExprShape::Other
            || has_fixed_type(parts_of(expr)[1]),
        expr_binds(expr, n) && shape_of(expr) == ExprShape::Binary && shape_of(parts_of(expr)[1])
            == ExprShape::UntypedPlaceholder ==> shape_of(parts_of(expr)[0]) != ExprShape::Other
            || has_fixed_type(parts_of(expr)[0]),
{
}

/// Plans and ids are seen whole.
pub proof fn law_plans_are_seen_whole(
    plan: LogicalPlan,
    plans: Seq<&LogicalPlan>,
    id: String,
    fault: String,
    i: int,
)
    ensures
        plan_view(Ok(plan)) == Ok::<_, Seq<char>>(plan),
        plan_view(Err(fault)) == Err::<LogicalPlan, _>(fault@),
        plans_view(plans).len() == plans.len(),
        0 <= i < plans.len() ==> plans_view(plans)[i] == *plans[i],
        id_view(Some(id)) == Some(id@),
        id_view(None) is None,
{
}

} // verus!

//! The group-join rewrite: fuse an aggregation sitting directly above a
//! left-outer equi-join into a single `LeftGroup` join node, when the
//! grouping keys align with the join's left-side equi-keys.

use crate::join_type::{JoinSide, JoinType, PlanError};
use crate::plan::{
    contains_left_group, is_group_join, join_node_wf, keys_aligned, plan_wf, Aggregate, Expr, Join,
    LogicalPlan,
};
use vstd::prelude::*;

verus! {

/// The optimizer-configuration handle passed to a rule. The rewrite does
/// not read any configuration; the handle is carried for the driver's
/// calling convention.
#[derive(Debug, Default)]
pub struct OptimizerConfig {}

/// A plan together with a flag telling the optimizer driver whether a rule
/// changed it, so dependent passes can be rescheduled.
#[derive(Debug)]
pub struct Transformed {
    pub data: LogicalPlan,
    pub transformed: bool,
}

impl Transformed {
    /// Wrap a plan that a rule has changed.
    pub fn yes(data: LogicalPlan) -> (r: Transformed)
        ensures
            r.data == data,
            r.transformed,
    {
        Transformed { data, transformed: true }
    }

    /// Wrap a plan that a rule has left as it was.
    pub fn no(data: LogicalPlan) -> (r: Transformed)
        ensures
            r.data == data,
            !r.transformed,
    {
        Transformed { data, transformed: false }
    }
}

/// No grouping expression is a grouping set (rollup, cube or explicit
/// grouping sets); the fused operator supports only flat grouping.
pub open spec fn no_grouping_sets(group: Seq<Expr>) -> bool {
    forall|i: int| 0 <= i < group.len() ==> !(#[trigger] group[i] is GroupingSet)
}

/// Whether the rewrite fires on the given plan: the root is an aggregation
/// whose direct input is a left-outer join, the grouping list is non-empty
/// and free of grouping sets, and the grouping keys align with the join's
/// left-side equi-keys.
pub open spec fn spec_fires(plan: LogicalPlan) -> bool {
    &&& plan matches LogicalPlan::Aggregate(agg)
    &&& *agg.input matches LogicalPlan::Join(j)
    &&& j.join_type == JoinType::Outer(JoinSide::Left)
    &&& agg.group_expr@.len() > 0
    &&& no_grouping_sets(agg.group_expr@)
    &&& keys_aligned(agg.group_expr@, j.on@)
}

/// The fused node the rewrite produces: a `LeftGroup` join that keeps the
/// consumed join's inputs, keys, filter, constraint and null-equality
/// flag, takes the aggregation's schema, and carries its grouping and
/// aggregate expressions.
pub open spec fn spec_fused(input: LogicalPlan, output: LogicalPlan) -> bool {
    &&& input matches LogicalPlan::Aggregate(agg)
    &&& *agg.input matches LogicalPlan::Join(j)
    &&& output matches LogicalPlan::Join(o)
    &&& o.left == j.left
    &&& o.right == j.right
    &&& o.on == j.on
    &&& o.filter == j.filter
    &&& o.join_type == JoinType::LeftGroup
    &&& o.join_constraint == j.join_constraint
    &&& o.schema == agg.schema
    &&& o.null_equals_null == j.null_equals_null
    &&& o.group_expr == Some(agg.group_expr)
    &&& o.aggr_expr == Some(agg.aggr_expr)
}

/// What the rewrite returns for a given input plan: the fused node when
/// the pattern matches, the input itself otherwise.
pub open spec fn rewrite_post(input: LogicalPlan, output: LogicalPlan) -> bool {
    if spec_fires(input) {
        spec_fused(input, output)
    } else {
        output == input
    }
}

/// The rule that rewrites an aggregation over a left-outer equi-join into
/// a fused group join. Stateless; a single instance may be shared.
#[derive(Debug, Default)]
pub struct GroupByAndJoinToGroupJoin {}

impl GroupByAndJoinToGroupJoin {
    pub fn new() -> (r: Self)
        ensures
            r == (GroupByAndJoinToGroupJoin {  }),
    {
        Self {  }
    }

    /// The name under which the optimizer driver registers the rule.
    pub fn name(&self) -> (r: &'static str)
        ensures
            r@ == "group_by_and_join_to_group_join"@,
    {
        "group_by_and_join_to_group_join"
    }

    /// The rule rewrites plans tree-to-tree.
    pub fn supports_rewrite(&self) -> (r: bool)
        ensures
            r,
    {
        true
    }

    /// Apply the rule to the root of `plan`: return the fused `LeftGroup`
    /// join flagged `transformed` when the pattern matches, and the plan
    /// unchanged otherwise. The rule itself never fails.
    pub fn rewrite(&self, plan: LogicalPlan, _config: &OptimizerConfig) -> (r: Result<
        Transformed,
        PlanError,
    >)
        ensures
            r matches Ok(t) && rewrite_post(plan, t.data) && (t.transformed <==> spec_fires(plan)),
    {
        let fires = match &plan {
            LogicalPlan::Aggregate(agg) => match &*agg.input {
                LogicalPlan::Join(j) => j.join_type == JoinType::Outer(JoinSide::Left)
                    && agg.group_expr.len() > 0 && !has_grouping_set(&agg.group_expr)
                    && is_group_join(&agg.group_expr, &j.on),
                _ => false,
            },
            _ => false,
        };
        if !fires {
            return Ok(Transformed::no(plan));
        }
        match plan {
            LogicalPlan::Aggregate(agg) => {
                let Aggregate { input, group_expr, aggr_expr, schema: aggregate_schema } = agg;
                match *input {
                    LogicalPlan::Join(j) => {
                        let Join {
                            left,
                            right,
                            on,
                            filter,
                            join_type: _,
                            join_constraint,
                            schema: _,
                            null_equals_null,
                            group_expr: _,
                            aggr_expr: _,
                        } = j;
                        let new_plan = LogicalPlan::Join(
                            Join {
                                left,
                                right,
                                on,
                                filter,
                                join_type: JoinType::LeftGroup,
                                join_constraint,
                                schema: aggregate_schema,
                                null_equals_null,
                                group_expr: Some(group_expr),
                                aggr_expr: Some(aggr_expr),
                            },
                        );
                        Ok(Transformed::yes(new_plan))
                    },
                    _ => vstd::pervasive::unreached(),
                }
            },
            _ => vstd::pervasive::unreached(),
        }
    }
}

/// Whether some expression of the list is a grouping set.
pub fn has_grouping_set(exprs: &Vec<Expr>) -> (r: bool)
    ensures
        r == !no_grouping_sets(exprs@),
{
    let n = exprs.len();
    let mut i: usize = 0;
    while i < n
        invariant
            n == exprs@.len(),
            i <= n,
            forall|k: int| 0 <= k < i ==> !(#[trigger] exprs@[k] is GroupingSet),
        decreases n - i,
    {
        if matches!(&exprs[i], Expr::GroupingSet(_)) {
            return true;
        }
        i = i + 1;
    }
    false
}

/// Applying the rule twice yields the same tree as applying it once: the
/// fused node is a join, not an aggregation, so the rule never fires on
/// its own output.
pub proof fn lemma_rewrite_idempotent(plan: LogicalPlan, once: LogicalPlan, twice: LogicalPlan)
    requires
        rewrite_post(plan, once),
        rewrite_post(once, twice),
    ensures
        twice == once,
{
}

/// A plan free of `LeftGroup` nodes gains one through the rewrite exactly
/// when the pattern fires: the fused node is the only way a `LeftGroup`
/// join appears.
pub proof fn lemma_firing_precondition(plan: LogicalPlan, output: LogicalPlan)
    requires
        !contains_left_group(plan),
        rewrite_post(plan, output),
    ensures
        contains_left_group(output) <==> spec_fires(plan),
{
    if spec_fires(plan) {
    } else {
    }
}

/// The rule is non-destructive: whenever it does not fire, the plan it
/// returns is structurally equal to the plan it was given.
pub proof fn lemma_unchanged_output_structurally_equal(plan: LogicalPlan, output: LogicalPlan)
    requires
        rewrite_post(plan, output),
        !spec_fires(plan),
    ensures
        crate::plan::plan_eq(output, plan),
{
    crate::plan::lemma_plan_eq_reflexive(plan);
}

/// The rewrite preserves well-formedness: the fused node carries a
/// non-empty grouping list and an aggregate list, as a `LeftGroup` join
/// must, and every other node is kept as it was.
pub proof fn lemma_rewrite_preserves_wf(plan: LogicalPlan, output: LogicalPlan)
    requires
        plan_wf(plan),
        rewrite_post(plan, output),
    ensures
        plan_wf(output),
{
    if spec_fires(plan) {
        match (plan, output) {
            (LogicalPlan::Aggregate(agg), LogicalPlan::Join(o)) => {
                match *agg.input {
                    LogicalPlan::Join(j) => {
                        assert(plan_wf(*agg.input));
                        assert(*o.left == *j.left);
                        assert(*o.right == *j.right);
                        assert(join_node_wf(o));
                    },
                    _ => {},
                }
            },
            _ => {},
        }
    }
}

} // verus!


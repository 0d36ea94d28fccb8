use groupjoin::join_type::{JoinConstraint, JoinSide, JoinType};
use groupjoin::plan::{
    exprs_equal, is_group_join, plans_equal, Aggregate, Expr, GroupingSet, Join, LogicalPlan,
    Schema, TableScan,
};
use groupjoin::rewrite::{GroupByAndJoinToGroupJoin, OptimizerConfig, Transformed};

fn col(name: &str) -> Expr {
    Expr::Column(name.to_string())
}

fn max_of(name: &str) -> Expr {
    Expr::AggregateFunction { func: "max".to_string(), arg: Box::new(col(name)) }
}

fn schema(fields: &[&str]) -> Schema {
    Schema { fields: fields.iter().map(|f| f.to_string()).collect() }
}

fn scan(name: &str, fields: &[&str]) -> LogicalPlan {
    LogicalPlan::TableScan(TableScan { table_name: name.to_string(), schema: schema(fields) })
}

/// `Join(join_type, on=[(left.key, right.key)], left=Scan(left{key}), right=Scan(right{key, value}))`
fn key_join(join_type: JoinType) -> Join {
    Join {
        left: Box::new(scan("left", &["left.key"])),
        right: Box::new(scan("right", &["right.key", "right.value"])),
        on: vec![(col("left.key"), col("right.key"))],
        filter: None,
        join_type,
        join_constraint: JoinConstraint::On,
        schema: schema(&["left.key", "right.key", "right.value"]),
        null_equals_null: false,
        group_expr: None,
        aggr_expr: None,
    }
}

/// `Aggregate(group, aggr=[max(right.value)], key_join(join_type))`
fn aggregate_over_join(join_type: JoinType, group: Vec<Expr>) -> LogicalPlan {
    LogicalPlan::Aggregate(Aggregate {
        input: Box::new(LogicalPlan::Join(key_join(join_type))),
        group_expr: group,
        aggr_expr: vec![max_of("right.value")],
        schema: schema(&["left.key", "max(right.value)"]),
    })
}

/// The fused node the rule must produce from `aggregate_over_join(Outer(Left), [left.key])`.
fn expected_fused() -> LogicalPlan {
    LogicalPlan::Join(Join {
        left: Box::new(scan("left", &["left.key"])),
        right: Box::new(scan("right", &["right.key", "right.value"])),
        on: vec![(col("left.key"), col("right.key"))],
        filter: None,
        join_type: JoinType::LeftGroup,
        join_constraint: JoinConstraint::On,
        schema: schema(&["left.key", "max(right.value)"]),
        null_equals_null: false,
        group_expr: Some(vec![col("left.key")]),
        aggr_expr: Some(vec![max_of("right.value")]),
    })
}

fn apply(plan: LogicalPlan) -> Transformed {
    let rule = GroupByAndJoinToGroupJoin::new();
    rule.rewrite(plan, &OptimizerConfig {}).unwrap()
}

fn root_is_left_group(plan: &LogicalPlan) -> bool {
    matches!(plan, LogicalPlan::Join(j) if j.join_type == JoinType::LeftGroup)
}

#[test]
fn left_aggregated_and_join_right() {
    let plan = aggregate_over_join(JoinType::Outer(JoinSide::Left), vec![col("left.key")]);
    let result = apply(plan);
    assert!(result.transformed);
    assert!(plans_equal(&result.data, &expected_fused()));
}

#[test]
fn fired_node_carries_group_and_aggregate_expressions() {
    let plan = aggregate_over_join(JoinType::Outer(JoinSide::Left), vec![col("left.key")]);
    let result = apply(plan);
    match &result.data {
        LogicalPlan::Join(j) => {
            assert_eq!(j.join_type, JoinType::LeftGroup);
            assert_eq!(j.join_constraint, JoinConstraint::On);
            assert!(!j.null_equals_null);
            let group = j.group_expr.as_ref().expect("grouping expressions must be present");
            let aggr = j.aggr_expr.as_ref().expect("aggregate expressions must be present");
            assert_eq!(group.len(), 1);
            assert!(exprs_equal(&group[0], &col("left.key")));
            assert_eq!(aggr.len(), 1);
            assert!(exprs_equal(&aggr[0], &max_of("right.value")));
            assert_eq!(j.schema.fields, vec!["left.key", "max(right.value)"]);
        }
        other => panic!("expected a join at the root, got {:?}", other),
    }
}

#[test]
fn does_not_fire_on_inner_join() {
    let plan = aggregate_over_join(JoinType::Inner, vec![col("left.key")]);
    let result = apply(plan);
    assert!(!result.transformed);
    let rebuilt = aggregate_over_join(JoinType::Inner, vec![col("left.key")]);
    assert!(plans_equal(&result.data, &rebuilt));
}

#[test]
fn does_not_fire_on_misaligned_keys() {
    let plan = aggregate_over_join(JoinType::Outer(JoinSide::Left), vec![col("left.other")]);
    let result = apply(plan);
    assert!(!result.transformed);
    let rebuilt = aggregate_over_join(JoinType::Outer(JoinSide::Left), vec![col("left.other")]);
    assert!(plans_equal(&result.data, &rebuilt));
}

#[test]
fn does_not_fire_on_grouping_set() {
    let rollup = Expr::GroupingSet(GroupingSet::Rollup(vec!["left.key".to_string()]));
    let plan = aggregate_over_join(JoinType::Outer(JoinSide::Left), vec![rollup]);
    let result = apply(plan);
    assert!(!result.transformed);
    assert!(!root_is_left_group(&result.data));
}

#[test]
fn does_not_fire_on_empty_grouping() {
    let plan = aggregate_over_join(JoinType::Outer(JoinSide::Left), vec![]);
    let result = apply(plan);
    assert!(!result.transformed);
}

#[test]
fn does_not_fire_on_bare_join_or_scan() {
    let result = apply(LogicalPlan::Join(key_join(JoinType::Outer(JoinSide::Left))));
    assert!(!result.transformed);
    let result = apply(scan("left", &["left.key"]));
    assert!(!result.transformed);
}

#[test]
fn rewrite_is_idempotent() {
    let plan = aggregate_over_join(JoinType::Outer(JoinSide::Left), vec![col("left.key")]);
    let once = apply(plan);
    assert!(once.transformed);
    let twice = apply(once.data);
    assert!(!twice.transformed);
    assert!(plans_equal(&twice.data, &expected_fused()));
}

#[test]
fn output_has_left_group_root_iff_fired() {
    let firing = aggregate_over_join(JoinType::Outer(JoinSide::Left), vec![col("left.key")]);
    let result = apply(firing);
    assert!(result.transformed && root_is_left_group(&result.data));

    let not_firing = aggregate_over_join(JoinType::Outer(JoinSide::Right), vec![col("left.key")]);
    let result = apply(not_firing);
    assert!(!result.transformed && !root_is_left_group(&result.data));
}

#[test]
fn alignment_is_order_insensitive() {
    let mut join = key_join(JoinType::Outer(JoinSide::Left));
    join.on = vec![(col("left.a"), col("right.a")), (col("left.b"), col("right.b"))];
    let plan = LogicalPlan::Aggregate(Aggregate {
        input: Box::new(LogicalPlan::Join(join)),
        group_expr: vec![col("left.b"), col("left.a")],
        aggr_expr: vec![max_of("right.value")],
        schema: schema(&["left.b", "left.a", "max(right.value)"]),
    });
    let result = apply(plan);
    assert!(result.transformed);
}

#[test]
fn alignment_counts_duplicates() {
    assert!(!is_group_join(
        &vec![col("left.a"), col("left.a")],
        &vec![(col("left.a"), col("right.a")), (col("left.b"), col("right.b"))],
    ));
    assert!(is_group_join(
        &vec![col("left.a"), col("left.a")],
        &vec![(col("left.a"), col("right.a")), (col("left.a"), col("right.b"))],
    ));
    assert!(!is_group_join(
        &vec![col("left.a")],
        &vec![(col("left.a"), col("right.a")), (col("left.b"), col("right.b"))],
    ));
    assert!(is_group_join(&vec![], &vec![]));
}

#[test]
fn rule_metadata() {
    let rule = GroupByAndJoinToGroupJoin::new();
    assert_eq!(rule.name(), "group_by_and_join_to_group_join");
    assert!(rule.supports_rewrite());
}

#[test]
fn transformed_wrappers_keep_the_plan() {
    let t = Transformed::yes(scan("left", &["left.key"]));
    assert!(t.transformed);
    assert!(plans_equal(&t.data, &scan("left", &["left.key"])));
    let t = Transformed::no(scan("left", &["left.key"]));
    assert!(!t.transformed);
    assert!(plans_equal(&t.data, &scan("left", &["left.key"])));
}

#[test]
fn expression_equality_is_syntactic() {
    assert!(exprs_equal(&col("left.key"), &col("left.key")));
    assert!(!exprs_equal(&col("left.key"), &col("left.other")));
    assert!(exprs_equal(&max_of("right.value"), &max_of("right.value")));
    assert!(!exprs_equal(&max_of("right.value"), &col("right.value")));
    let rollup = || Expr::GroupingSet(GroupingSet::Rollup(vec!["left.key".to_string()]));
    let cube = Expr::GroupingSet(GroupingSet::Cube(vec!["left.key".to_string()]));
    assert!(exprs_equal(&rollup(), &rollup()));
    assert!(!exprs_equal(&rollup(), &cube));
}

#[test]
fn plan_equality_distinguishes_plans() {
    let a = aggregate_over_join(JoinType::Outer(JoinSide::Left), vec![col("left.key")]);
    let b = aggregate_over_join(JoinType::Outer(JoinSide::Left), vec![col("left.key")]);
    assert!(plans_equal(&a, &b));
    let c = aggregate_over_join(JoinType::Inner, vec![col("left.key")]);
    assert!(!plans_equal(&a, &c));
    assert!(!plans_equal(&a, &expected_fused()));
}

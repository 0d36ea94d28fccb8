//! The logical-plan model the rewrite operates on: expressions, schemas,
//! and the `Aggregate`, `Join` and `TableScan` plan nodes.

use crate::join_type::{JoinConstraint, JoinType};
use vstd::prelude::*;

verus! {

/// A scalar expression as it appears in grouping lists, aggregate lists and
/// equi-join keys. Only the structure the rewrite inspects is modelled: a
/// column reference, an aggregate call over an expression, and a grouping
/// set (rollup, cube or explicit sets of columns).
#[derive(Debug)]
pub enum Expr {
    /// A (qualified) column reference such as `left.key`.
    Column(String),
    /// An aggregate function applied to an argument, such as `max(right.value)`.
    AggregateFunction { func: String, arg: Box<Expr> },
    /// A grouping set; its presence in a grouping list disqualifies the rewrite.
    GroupingSet(GroupingSet),
}

/// Rollup, cube, or explicit grouping sets over column references.
#[derive(Debug, Clone)]
pub enum GroupingSet {
    /// `ROLLUP (c1, c2, ...)`
    Rollup(Vec<String>),
    /// `CUBE (c1, c2, ...)`
    Cube(Vec<String>),
    /// `GROUPING SETS ((c1, ...), (c2, ...), ...)`
    GroupingSets(Vec<Vec<String>>),
}

/// Syntactic equality of two grouping sets.
pub open spec fn grouping_set_eq(a: GroupingSet, b: GroupingSet) -> bool {
    match (a, b) {
        (GroupingSet::Rollup(x), GroupingSet::Rollup(y)) => x.deep_view() == y.deep_view(),
        (GroupingSet::Cube(x), GroupingSet::Cube(y)) => x.deep_view() == y.deep_view(),
        (GroupingSet::GroupingSets(x), GroupingSet::GroupingSets(y)) => x.deep_view()
            == y.deep_view(),
        _ => false,
    }
}

/// Syntactic equality of two expressions: same shape, same names.
pub open spec fn expr_eq(a: Expr, b: Expr) -> bool
    decreases a,
{
    match (a, b) {
        (Expr::Column(x), Expr::Column(y)) => x@ == y@,
        (
            Expr::AggregateFunction { func: f1, arg: a1 },
            Expr::AggregateFunction { func: f2, arg: a2 },
        ) => f1@ == f2@ && expr_eq(*a1, *a2),
        (Expr::GroupingSet(g1), Expr::GroupingSet(g2)) => grouping_set_eq(g1, g2),
        _ => false,
    }
}

/// Syntactic equality is reflexive.
pub proof fn lemma_expr_eq_reflexive(a: Expr)
    ensures
        expr_eq(a, a),
    decreases a,
{
    match a {
        Expr::AggregateFunction { func, arg } => {
            lemma_expr_eq_reflexive(*arg);
        },
        _ => {},
    }
}

/// Syntactic equality is symmetric.
pub proof fn lemma_expr_eq_symmetric(a: Expr, b: Expr)
    requires
        expr_eq(a, b),
    ensures
        expr_eq(b, a),
    decreases a,
{
    match (a, b) {
        (
            Expr::AggregateFunction { func: f1, arg: a1 },
            Expr::AggregateFunction { func: f2, arg: a2 },
        ) => {
            lemma_expr_eq_symmetric(*a1, *a2);
        },
        _ => {},
    }
}

/// Syntactic equality is transitive.
pub proof fn lemma_expr_eq_transitive(a: Expr, b: Expr, c: Expr)
    requires
        expr_eq(a, b),
        expr_eq(b, c),
    ensures
        expr_eq(a, c),
    decreases a,
{
    match (a, b) {
        (
            Expr::AggregateFunction { func: f1, arg: a1 },
            Expr::AggregateFunction { func: f2, arg: a2 },
        ) => {
            match c {
                Expr::AggregateFunction { func: f3, arg: a3 } => {
                    lemma_expr_eq_transitive(*a1, *a2, *a3);
                },
                _ => {},
            }
        },
        _ => {},
    }
}

/// Compare two vectors of column names for equality of contents.
fn column_names_equal(x: &Vec<String>, y: &Vec<String>) -> (r: bool)
    ensures
        r == (x.deep_view() == y.deep_view()),
{
    if x.len() != y.len() {
        assert(x.deep_view().len() != y.deep_view().len());
        return false;
    }
    let n = x.len();
    let mut i: usize = 0;
    while i < n
        invariant
            n == x.len() == y.len(),
            i <= n,
            forall|k: int| 0 <= k < i ==> x.deep_view()[k] == y.deep_view()[k],
        decreases n - i,
    {
        if !x[i].eq(&y[i]) {
            assert(x.deep_view()[i as int] != y.deep_view()[i as int]);
            return false;
        }
        i = i + 1;
    }
    assert(x.deep_view() =~= y.deep_view());
    true
}

/// Compare two vectors of column-name lists for equality of contents.
fn column_name_lists_equal(x: &Vec<Vec<String>>, y: &Vec<Vec<String>>) -> (r: bool)
    ensures
        r == (x.deep_view() == y.deep_view()),
{
    if x.len() != y.len() {
        assert(x.deep_view().len() != y.deep_view().len());
        return false;
    }
    let n = x.len();
    let mut i: usize = 0;
    while i < n
        invariant
            n == x.len() == y.len(),
            i <= n,
            forall|k: int| 0 <= k < i ==> x.deep_view()[k] == y.deep_view()[k],
        decreases n - i,
    {
        if !column_names_equal(&x[i], &y[i]) {
            assert(x.deep_view()[i as int] != y.deep_view()[i as int]);
            return false;
        }
        i = i + 1;
    }
    assert(x.deep_view() =~= y.deep_view());
    true
}

/// Decide syntactic equality of two grouping sets.
pub fn grouping_sets_equal(a: &GroupingSet, b: &GroupingSet) -> (r: bool)
    ensures
        r == grouping_set_eq(*a, *b),
{
    match (a, b) {
        (GroupingSet::Rollup(x), GroupingSet::Rollup(y)) => column_names_equal(x, y),
        (GroupingSet::Cube(x), GroupingSet::Cube(y)) => column_names_equal(x, y),
        (GroupingSet::GroupingSets(x), GroupingSet::GroupingSets(y)) => column_name_lists_equal(
            x,
            y,
        ),
        _ => false,
    }
}

/// How many expressions of `s`, from index `i` on, are syntactically equal
/// to `e`.
pub open spec fn count_from(s: Seq<Expr>, e: Expr, i: int) -> nat
    decreases s.len() - i,
{
    if i < 0 || i >= s.len() {
        0
    } else {
        (if expr_eq(s[i], e) {
            1nat
        } else {
            0nat
        }) + count_from(s, e, i + 1)
    }
}

/// How many expressions of `s` are syntactically equal to `e`.
pub open spec fn count_matching(s: Seq<Expr>, e: Expr) -> nat {
    count_from(s, e, 0)
}

/// A positive count yields a witness index.
proof fn lemma_count_from_pos(s: Seq<Expr>, e: Expr, i: int)
    requires
        count_from(s, e, i) > 0,
    ensures
        exists|j: int| i <= j < s.len() && expr_eq(s[j], e),
    decreases s.len() - i,
{
    if 0 <= i < s.len() {
        if expr_eq(s[i], e) {
        } else {
            lemma_count_from_pos(s, e, i + 1);
        }
    }
}

/// Counting respects syntactic equality: equal expressions have equal
/// counts in any sequence.
proof fn lemma_count_from_congruent(s: Seq<Expr>, e1: Expr, e2: Expr, i: int)
    requires
        expr_eq(e1, e2),
    ensures
        count_from(s, e1, i) == count_from(s, e2, i),
    decreases s.len() - i,
{
    if 0 <= i < s.len() {
        lemma_count_from_congruent(s, e1, e2, i + 1);
        if expr_eq(s[i], e1) {
            lemma_expr_eq_transitive(s[i], e1, e2);
        }
        if expr_eq(s[i], e2) {
            lemma_expr_eq_symmetric(e1, e2);
            lemma_expr_eq_transitive(s[i], e2, e1);
        }
    }
}

/// The left column of an equi-key list: the first component of each pair.
pub open spec fn on_left(on: Seq<(Expr, Expr)>) -> Seq<Expr> {
    on.map_values(|p: (Expr, Expr)| p.0)
}

/// The grouping keys align with the join's left-side equi-keys: the two
/// lists are equal as multisets under syntactic equality.
pub open spec fn keys_aligned(group: Seq<Expr>, on: Seq<(Expr, Expr)>) -> bool {
    forall|e: Expr| count_matching(group, e) == count_matching(on_left(on), e)
}

/// Multiset equality needs to be checked only at the elements of the two
/// sequences themselves: if every element of either sequence has the same
/// count in both, then so does every expression.
proof fn lemma_counts_at_elements_suffice(group: Seq<Expr>, lefts: Seq<Expr>)
    requires
        forall|i: int|
            0 <= i < group.len() ==> count_matching(group, #[trigger] group[i]) == count_matching(
                lefts,
                group[i],
            ),
        forall|i: int|
            0 <= i < lefts.len() ==> count_matching(group, #[trigger] lefts[i]) == count_matching(
                lefts,
                lefts[i],
            ),
    ensures
        forall|e: Expr| count_matching(group, e) == count_matching(lefts, e),
{
    assert forall|e: Expr| count_matching(group, e) == count_matching(lefts, e) by {
        if count_matching(group, e) > 0 {
            lemma_count_from_pos(group, e, 0);
            let j = choose|j: int| 0 <= j < group.len() && expr_eq(group[j], e);
            lemma_expr_eq_symmetric(group[j], e);
            lemma_count_from_congruent(group, e, group[j], 0);
            lemma_count_from_congruent(lefts, e, group[j], 0);
        } else if count_matching(lefts, e) > 0 {
            lemma_count_from_pos(lefts, e, 0);
            let j = choose|j: int| 0 <= j < lefts.len() && expr_eq(lefts[j], e);
            lemma_expr_eq_symmetric(lefts[j], e);
            lemma_count_from_congruent(group, e, lefts[j], 0);
            lemma_count_from_congruent(lefts, e, lefts[j], 0);
        }
    }
}

/// Count the expressions of `v` syntactically equal to `e`.
fn count_in(v: &Vec<Expr>, e: &Expr) -> (r: usize)
    ensures
        r == count_matching(v@, *e),
{
    let n = v.len();
    let mut i: usize = 0;
    let mut r: usize = 0;
    while i < n
        invariant
            n == v@.len(),
            i <= n,
            r <= i,
            r + count_from(v@, *e, i as int) == count_matching(v@, *e),
        decreases n - i,
    {
        if exprs_equal(&v[i], e) {
            r = r + 1;
        }
        i = i + 1;
    }
    r
}

/// Count the left-side equi-keys of `on` syntactically equal to `e`.
fn count_in_lefts(on: &Vec<(Expr, Expr)>, e: &Expr) -> (r: usize)
    ensures
        r == count_matching(on_left(on@), *e),
{
    let n = on.len();
    let mut i: usize = 0;
    let mut r: usize = 0;
    while i < n
        invariant
            n == on@.len(),
            i <= n,
            r <= i,
            r + count_from(on_left(on@), *e, i as int) == count_matching(on_left(on@), *e),
        decreases n - i,
    {
        assert(on_left(on@)[i as int] == on@[i as int].0);
        if exprs_equal(&on[i].0, e) {
            r = r + 1;
        }
        i = i + 1;
    }
    r
}

/// Decide whether the grouping keys and the join's left-side equi-keys are
/// equal as multisets under syntactic equality.
pub fn is_group_join(group_expr: &Vec<Expr>, on: &Vec<(Expr, Expr)>) -> (r: bool)
    ensures
        r == keys_aligned(group_expr@, on@),
{
    let n = group_expr.len();
    let mut i: usize = 0;
    while i < n
        invariant
            n == group_expr@.len(),
            i <= n,
            forall|k: int|
                0 <= k < i ==> count_matching(group_expr@, #[trigger] group_expr@[k])
                    == count_matching(on_left(on@), group_expr@[k]),
        decreases n - i,
    {
        let c1 = count_in(group_expr, &group_expr[i]);
        let c2 = count_in_lefts(on, &group_expr[i]);
        if c1 != c2 {
            assert(count_matching(group_expr@, group_expr@[i as int]) != count_matching(
                on_left(on@),
                group_expr@[i as int],
            ));
            return false;
        }
        i = i + 1;
    }
    let m = on.len();
    let mut j: usize = 0;
    while j < m
        invariant
            n == group_expr@.len(),
            m == on@.len(),
            j <= m,
            forall|k: int|
                0 <= k < n ==> count_matching(group_expr@, #[trigger] group_expr@[k])
                    == count_matching(on_left(on@), group_expr@[k]),
            forall|k: int|
                0 <= k < j ==> count_matching(group_expr@, #[trigger] on_left(on@)[k])
                    == count_matching(on_left(on@), on_left(on@)[k]),
        decreases m - j,
    {
        assert(on_left(on@)[j as int] == on@[j as int].0);
        let c1 = count_in(group_expr, &on[j].0);
        let c2 = count_in_lefts(on, &on[j].0);
        if c1 != c2 {
            assert(count_matching(group_expr@, on_left(on@)[j as int]) != count_matching(
                on_left(on@),
                on_left(on@)[j as int],
            ));
            return false;
        }
        j = j + 1;
    }
    proof {
        assert(on_left(on@).len() == on@.len());
        lemma_counts_at_elements_suffice(group_expr@, on_left(on@));
    }
    true
}

/// Decide syntactic equality of two expressions.
pub fn exprs_equal(a: &Expr, b: &Expr) -> (r: bool)
    ensures
        r == expr_eq(*a, *b),
    decreases *a,
{
    match (a, b) {
        (Expr::Column(x), Expr::Column(y)) => x.eq(y),
        (
            Expr::AggregateFunction { func: f1, arg: a1 },
            Expr::AggregateFunction { func: f2, arg: a2 },
        ) => f1.eq(f2) && exprs_equal(&**a1, &**a2),
        (Expr::GroupingSet(g1), Expr::GroupingSet(g2)) => grouping_sets_equal(g1, g2),
        _ => false,
    }
}

/// The output schema of a plan node: an ordered list of field names.
#[derive(Debug, Clone)]
pub struct Schema {
    pub fields: Vec<String>,
}

/// A leaf node reading a named table.
#[derive(Debug)]
pub struct TableScan {
    pub table_name: String,
    pub schema: Schema,
}

/// An aggregation node: grouping expressions and aggregate expressions
/// computed over the rows of its input.
#[derive(Debug)]
pub struct Aggregate {
    pub input: Box<LogicalPlan>,
    pub group_expr: Vec<Expr>,
    pub aggr_expr: Vec<Expr>,
    pub schema: Schema,
}

/// A join node. `group_expr` and `aggr_expr` are present exactly when the
/// join type is `LeftGroup`: the fused node carries the grouping and
/// aggregate expressions of the aggregation it consumed.
#[derive(Debug)]
pub struct Join {
    pub left: Box<LogicalPlan>,
    pub right: Box<LogicalPlan>,
    pub on: Vec<(Expr, Expr)>,
    pub filter: Option<Expr>,
    pub join_type: JoinType,
    pub join_constraint: JoinConstraint,
    pub schema: Schema,
    pub null_equals_null: bool,
    pub group_expr: Option<Vec<Expr>>,
    pub aggr_expr: Option<Vec<Expr>>,
}

/// A logical-plan tree.
#[derive(Debug)]
pub enum LogicalPlan {
    TableScan(TableScan),
    Aggregate(Aggregate),
    Join(Join),
}

/// Syntactic equality of two schemas.
pub open spec fn schema_eq(a: Schema, b: Schema) -> bool {
    a.fields.deep_view() == b.fields.deep_view()
}

/// Syntactic equality of two expression sequences, element by element.
pub open spec fn expr_seq_eq(a: Seq<Expr>, b: Seq<Expr>) -> bool {
    a.len() == b.len() && forall|i: int| 0 <= i < a.len() ==> expr_eq(#[trigger] a[i], b[i])
}

/// Syntactic equality of two equi-key lists, pair by pair.
pub open spec fn on_eq(a: Seq<(Expr, Expr)>, b: Seq<(Expr, Expr)>) -> bool {
    a.len() == b.len() && forall|i: int|
        0 <= i < a.len() ==> expr_eq(#[trigger] a[i].0, b[i].0) && expr_eq(a[i].1, b[i].1)
}

/// Syntactic equality of two optional expressions.
pub open spec fn opt_expr_eq(a: Option<Expr>, b: Option<Expr>) -> bool {
    match (a, b) {
        (None, None) => true,
        (Some(x), Some(y)) => expr_eq(x, y),
        _ => false,
    }
}

/// Syntactic equality of two optional expression lists.
pub open spec fn opt_expr_seq_eq(a: Option<Vec<Expr>>, b: Option<Vec<Expr>>) -> bool {
    match (a, b) {
        (None, None) => true,
        (Some(x), Some(y)) => expr_seq_eq(x@, y@),
        _ => false,
    }
}

/// Structural equality of two plan trees: same node shapes, same
/// expressions, same schemas, all the way down.
pub open spec fn plan_eq(a: LogicalPlan, b: LogicalPlan) -> bool
    decreases a,
{
    match (a, b) {
        (LogicalPlan::TableScan(x), LogicalPlan::TableScan(y)) => x.table_name@ == y.table_name@
            && schema_eq(x.schema, y.schema),
        (LogicalPlan::Aggregate(x), LogicalPlan::Aggregate(y)) => plan_eq(*x.input, *y.input)
            && expr_seq_eq(x.group_expr@, y.group_expr@) && expr_seq_eq(x.aggr_expr@, y.aggr_expr@)
            && schema_eq(x.schema, y.schema),
        (LogicalPlan::Join(x), LogicalPlan::Join(y)) => plan_eq(*x.left, *y.left) && plan_eq(
            *x.right,
            *y.right,
        ) && on_eq(x.on@, y.on@) && opt_expr_eq(x.filter, y.filter) && x.join_type == y.join_type
            && x.join_constraint == y.join_constraint && schema_eq(x.schema, y.schema)
            && x.null_equals_null == y.null_equals_null && opt_expr_seq_eq(
            x.group_expr,
            y.group_expr,
        ) && opt_expr_seq_eq(x.aggr_expr, y.aggr_expr),
        _ => false,
    }
}

/// Compare two expression vectors element by element.
pub fn expr_vecs_equal(a: &Vec<Expr>, b: &Vec<Expr>) -> (r: bool)
    ensures
        r == expr_seq_eq(a@, b@),
{
    if a.len() != b.len() {
        return false;
    }
    let n = a.len();
    let mut i: usize = 0;
    while i < n
        invariant
            n == a@.len() == b@.len(),
            i <= n,
            forall|k: int| 0 <= k < i ==> expr_eq(#[trigger] a@[k], b@[k]),
        decreases n - i,
    {
        if !exprs_equal(&a[i], &b[i]) {
            return false;
        }
        i = i + 1;
    }
    true
}

/// Compare two equi-key lists pair by pair.
fn on_lists_equal(a: &Vec<(Expr, Expr)>, b: &Vec<(Expr, Expr)>) -> (r: bool)
    ensures
        r == on_eq(a@, b@),
{
    if a.len() != b.len() {
        return false;
    }
    let n = a.len();
    let mut i: usize = 0;
    while i < n
        invariant
            n == a@.len() == b@.len(),
            i <= n,
            forall|k: int| 0 <= k < i ==> expr_eq(#[trigger] a@[k].0, b@[k].0),
            forall|k: int| 0 <= k < i ==> expr_eq(#[trigger] a@[k].1, b@[k].1),
        decreases n - i,
    {
        if !exprs_equal(&a[i].0, &b[i].0) {
            return false;
        }
        if !exprs_equal(&a[i].1, &b[i].1) {
            return false;
        }
        i = i + 1;
    }
    true
}

/// Compare two schemas field by field.
pub fn schemas_equal(a: &Schema, b: &Schema) -> (r: bool)
    ensures
        r == schema_eq(*a, *b),
{
    column_names_equal(&a.fields, &b.fields)
}

/// Decide structural equality of two plan trees.
pub fn plans_equal(a: &LogicalPlan, b: &LogicalPlan) -> (r: bool)
    ensures
        r == plan_eq(*a, *b),
    decreases *a,
{
    match (a, b) {
        (LogicalPlan::TableScan(x), LogicalPlan::TableScan(y)) => x.table_name.eq(&y.table_name)
            && schemas_equal(&x.schema, &y.schema),
        (LogicalPlan::Aggregate(x), LogicalPlan::Aggregate(y)) => plans_equal(&x.input, &y.input)
            && expr_vecs_equal(&x.group_expr, &y.group_expr) && expr_vecs_equal(
            &x.aggr_expr,
            &y.aggr_expr,
        ) && schemas_equal(&x.schema, &y.schema),
        (LogicalPlan::Join(x), LogicalPlan::Join(y)) => {
            let structural = plans_equal(&x.left, &y.left) && plans_equal(&x.right, &y.right)
                && on_lists_equal(&x.on, &y.on) && x.join_type == y.join_type
                && x.join_constraint == y.join_constraint && schemas_equal(&x.schema, &y.schema)
                && x.null_equals_null == y.null_equals_null;
            let filters = match (&x.filter, &y.filter) {
                (None, None) => true,
                (Some(f1), Some(f2)) => exprs_equal(f1, f2),
                _ => false,
            };
            let groups = match (&x.group_expr, &y.group_expr) {
                (None, None) => true,
                (Some(g1), Some(g2)) => expr_vecs_equal(g1, g2),
                _ => false,
            };
            let aggrs = match (&x.aggr_expr, &y.aggr_expr) {
                (None, None) => true,
                (Some(g1), Some(g2)) => expr_vecs_equal(g1, g2),
                _ => false,
            };
            structural && filters && groups && aggrs
        },
        _ => false,
    }
}

/// Element-wise syntactic equality of an expression sequence with itself.
proof fn lemma_expr_seq_eq_reflexive(s: Seq<Expr>)
    ensures
        expr_seq_eq(s, s),
{
    assert forall|i: int| 0 <= i < s.len() implies expr_eq(#[trigger] s[i], s[i]) by {
        lemma_expr_eq_reflexive(s[i]);
    }
}

/// Structural plan equality is reflexive: every plan is structurally
/// equal to itself.
pub proof fn lemma_plan_eq_reflexive(p: LogicalPlan)
    ensures
        plan_eq(p, p),
    decreases p,
{
    match p {
        LogicalPlan::TableScan(_) => {},
        LogicalPlan::Aggregate(a) => {
            lemma_plan_eq_reflexive(*a.input);
            lemma_expr_seq_eq_reflexive(a.group_expr@);
            lemma_expr_seq_eq_reflexive(a.aggr_expr@);
        },
        LogicalPlan::Join(j) => {
            lemma_plan_eq_reflexive(*j.left);
            lemma_plan_eq_reflexive(*j.right);
            assert forall|i: int| 0 <= i < j.on@.len() implies expr_eq(#[trigger] j.on@[i].0, j.on@[i].0)
                && expr_eq(j.on@[i].1, j.on@[i].1) by {
                lemma_expr_eq_reflexive(j.on@[i].0);
                lemma_expr_eq_reflexive(j.on@[i].1);
            }
            match j.filter {
                Some(f) => lemma_expr_eq_reflexive(f),
                None => {},
            }
            match j.group_expr {
                Some(g) => lemma_expr_seq_eq_reflexive(g@),
                None => {},
            }
            match j.aggr_expr {
                Some(g) => lemma_expr_seq_eq_reflexive(g@),
                None => {},
            }
        },
    }
}

/// Whether any node of the tree is a `LeftGroup` join.
pub open spec fn contains_left_group(p: LogicalPlan) -> bool
    decreases p,
{
    match p {
        LogicalPlan::TableScan(_) => false,
        LogicalPlan::Aggregate(a) => contains_left_group(*a.input),
        LogicalPlan::Join(j) => j.join_type == JoinType::LeftGroup || contains_left_group(*j.left)
            || contains_left_group(*j.right),
    }
}

/// Well-formedness of a join node: the grouping and aggregate expression
/// lists are present, and the grouping list non-empty, exactly when the
/// join type is `LeftGroup`.
pub open spec fn join_node_wf(j: Join) -> bool {
    if j.join_type == JoinType::LeftGroup {
        &&& j.group_expr matches Some(g) && g@.len() > 0
        &&& j.aggr_expr is Some
    } else {
        &&& j.group_expr is None
        &&& j.aggr_expr is None
    }
}

/// Well-formedness of a plan tree: every join node in it is well-formed.
pub open spec fn plan_wf(p: LogicalPlan) -> bool
    decreases p,
{
    match p {
        LogicalPlan::TableScan(_) => true,
        LogicalPlan::Aggregate(a) => plan_wf(*a.input),
        LogicalPlan::Join(j) => join_node_wf(j) && plan_wf(*j.left) && plan_wf(*j.right),
    }
}

} // verus!

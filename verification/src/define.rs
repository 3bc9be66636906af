//! Data model for per-user access rules over named data views.
//!
//! A [`UserDAcls`] value is one user's complete access policy: an ordered
//! list of [`DataAcl`] entries, each binding a [`DataView`] (the dataset a
//! rule governs) to a [`ViewScope`] (the restriction attached to it).  A
//! [`Condition`] is one filter unit: an ordered list of raw predicate
//! fragments that combine with logical `AND`.

use vstd::prelude::*;
use crate::traits::TestSubAble;

verus! {

/// Abstract value of a [`Condition`]: the clause texts as sequences of
/// characters.
pub ghost struct ConditionV {
    pub filter_clauses: Seq<Seq<char>>,
}

/// Abstract value of a [`ViewScope`].
pub ghost struct ViewScopeV {
    pub conditions: Seq<ConditionV>,
}

/// Abstract value of a [`DataView`].
pub ghost struct DataViewV {
    pub name: Seq<char>,
    pub source: Seq<char>,
    pub user_field: Seq<char>,
}

/// Abstract value of a [`DataAcl`].
pub ghost struct DataAclV {
    pub data_view: DataViewV,
    pub view_scope: ViewScopeV,
}

/// Abstract value of a [`UserDAcls`].
pub ghost struct UserDAclsV {
    pub user_id: Seq<char>,
    pub data_acls: Seq<DataAclV>,
}

/// One filter unit: raw predicate fragments that combine with logical `AND`.
#[derive(Debug)]
pub struct Condition {
    /// Each entry is a self-contained boolean expression in the target
    /// query language, e.g. `status = 'active'`.
    pub filter_clauses: Vec<String>,
}

/// The restriction attached to a data view: an ordered list of conditions.
#[derive(Debug)]
pub struct ViewScope {
    pub conditions: Vec<Condition>,
}

/// Names the logical dataset a rule governs.
#[derive(Debug)]
pub struct DataView {
    /// Human-readable label; not used for matching.
    pub name: String,
    /// Identifier of the underlying table; the sole join key between an
    /// incoming query and a rule.
    pub source: String,
    /// Column that binds rows to the acting user, if a policy uses it.
    pub user_field: String,
}

/// One data-view-scoped policy: a view together with its restriction.
#[derive(Debug)]
pub struct DataAcl {
    pub data_view: DataView,
    pub view_scope: ViewScope,
}

/// One user's complete access policy.
#[derive(Debug)]
pub struct UserDAcls {
    pub user_id: String,
    pub data_acls: Vec<DataAcl>,
}

impl DeepView for Condition {
    type V = ConditionV;

    open spec fn deep_view(&self) -> ConditionV {
        ConditionV { filter_clauses: self.filter_clauses.deep_view() }
    }
}

impl DeepView for ViewScope {
    type V = ViewScopeV;

    open spec fn deep_view(&self) -> ViewScopeV {
        ViewScopeV { conditions: self.conditions.deep_view() }
    }
}

impl DeepView for DataView {
    type V = DataViewV;

    open spec fn deep_view(&self) -> DataViewV {
        DataViewV {
            name: self.name@,
            source: self.source@,
            user_field: self.user_field@,
        }
    }
}

impl DeepView for DataAcl {
    type V = DataAclV;

    open spec fn deep_view(&self) -> DataAclV {
        DataAclV {
            data_view: self.data_view.deep_view(),
            view_scope: self.view_scope.deep_view(),
        }
    }
}

impl DeepView for UserDAcls {
    type V = UserDAclsV;

    open spec fn deep_view(&self) -> UserDAclsV {
        UserDAclsV { user_id: self.user_id@, data_acls: self.data_acls.deep_view() }
    }
}

impl Clone for Condition {
    fn clone(&self) -> (r: Self)
        ensures
            r.deep_view() == self.deep_view(),
    {
        let r = Condition { filter_clauses: self.filter_clauses.clone() };
        proof {
            assert(r.filter_clauses.deep_view() =~= self.filter_clauses.deep_view());
        }
        r
    }
}

impl Clone for ViewScope {
    fn clone(&self) -> (r: Self)
        ensures
            r.deep_view() == self.deep_view(),
    {
        let r = ViewScope { conditions: self.conditions.clone() };
        proof {
            assert(r.conditions.deep_view() =~= self.conditions.deep_view());
        }
        r
    }
}

impl Clone for DataView {
    fn clone(&self) -> (r: Self)
        ensures
            r.deep_view() == self.deep_view(),
    {
        DataView {
            name: self.name.clone(),
            source: self.source.clone(),
            user_field: self.user_field.clone(),
        }
    }
}

impl Clone for DataAcl {
    fn clone(&self) -> (r: Self)
        ensures
            r.deep_view() == self.deep_view(),
    {
        DataAcl { data_view: self.data_view.clone(), view_scope: self.view_scope.clone() }
    }
}

impl Clone for UserDAcls {
    fn clone(&self) -> (r: Self)
        ensures
            r.deep_view() == self.deep_view(),
    {
        let r = UserDAcls { user_id: self.user_id.clone(), data_acls: self.data_acls.clone() };
        proof {
            assert(r.data_acls.deep_view() =~= self.data_acls.deep_view());
        }
        r
    }
}

impl UserDAcls {
    /// Replaces the identity this policy belongs to; the rules themselves
    /// are untouched.
    pub fn set_user_id(&mut self, user_id: String)
        ensures
            final(self).user_id == user_id,
            final(self).data_acls == old(self).data_acls,
    {
        self.user_id = user_id;
    }
}

impl TestSubAble for UserDAcls {
    fn stub() -> Self {
        UserDAcls { user_id: "1001".to_owned(), data_acls: vec![DataAcl::stub()] }
    }
}

impl TestSubAble for DataAcl {
    fn stub() -> Self {
        DataAcl { data_view: DataView::stub(), view_scope: ViewScope::stub() }
    }
}

impl TestSubAble for DataView {
    fn stub() -> Self {
        DataView {
            name: "test_view".to_owned(),
            source: "test_source".to_owned(),
            user_field: "user_id".to_owned(),
        }
    }
}

impl TestSubAble for ViewScope {
    fn stub() -> Self {
        ViewScope { conditions: vec![Condition::stub()] }
    }
}

impl TestSubAble for Condition {
    fn stub() -> Self {
        Condition { filter_clauses: vec!["status = 'active'".to_owned()] }
    }
}

/// The clauses of a condition joined left-to-right with the SQL `AND`
/// keyword, each scoped as an operand of the conjunction: a clause whose
/// top level is a disjunction is parenthesized, so it cannot leak into the
/// chain.
pub open spec fn joined_operands(cs: Seq<Seq<char>>) -> Seq<char>
    decreases cs.len(),
{
    if cs.len() <= 1 {
        crate::sql::and_operand(cs[0])
    } else {
        joined_operands(cs.drop_last()) + " AND "@ + crate::sql::and_operand(cs.last())
    }
}

/// The combined predicate text of an ordered list of clauses: empty for no
/// clauses, the clause itself — verbatim — for one, and the scoped clauses
/// joined left-to-right with `AND` otherwise.
pub open spec fn and_join(cs: Seq<Seq<char>>) -> Seq<char> {
    if cs.len() == 0 {
        Seq::empty()
    } else if cs.len() == 1 {
        cs[0]
    } else {
        joined_operands(cs)
    }
}

/// Law: a condition with a single clause compiles to that clause verbatim.
pub proof fn lemma_single_clause_verbatim(cs: Seq<Seq<char>>)
    requires
        cs.len() == 1,
    ensures
        and_join(cs) == cs[0],
{
}

/// Where a sequence of characters occurs inside another.
pub open spec fn occurs_at(hay: Seq<char>, needle: Seq<char>, i: int) -> bool {
    0 <= i && i + needle.len() <= hay.len() && hay.subrange(i, i + needle.len()) == needle
}

proof fn lemma_operand_holds_clause(hay: Seq<char>, s: Seq<char>, at: int)
    requires
        0 <= at,
        at + crate::sql::and_operand(s).len() <= hay.len(),
        hay.subrange(at, at + crate::sql::and_operand(s).len()) == crate::sql::and_operand(s),
    ensures
        exists|i: int| occurs_at(hay, s, i),
{
    reveal_strlit("(");
    reveal_strlit(")");
    let op = crate::sql::and_operand(s);
    let shift: int = if crate::sql::expr_and_operand(s) { 0 } else { 1 };
    assert forall|j: int| 0 <= j < s.len() implies hay.subrange(
        at + shift,
        at + shift + s.len(),
    )[j] == s[j] by {
        assert(hay.subrange(at, at + op.len())[shift + j] == op[shift + j]);
    }
    assert(hay.subrange(at + shift, at + shift + s.len()) =~= s);
    assert(occurs_at(hay, s, at + shift));
}

proof fn lemma_operand_occurs(cs: Seq<Seq<char>>, k: int)
    requires
        1 <= cs.len(),
        0 <= k < cs.len(),
    ensures
        exists|i: int| occurs_at(joined_operands(cs), cs[k], i),
    decreases cs.len(),
{
    let hay = joined_operands(cs);
    if cs.len() == 1 {
        assert(hay =~= hay.subrange(0, hay.len() as int));
        lemma_operand_holds_clause(hay, cs[0], 0);
    } else if k == cs.len() - 1 {
        let prefix = joined_operands(cs.drop_last()) + " AND "@;
        let start = prefix.len() as int;
        assert(hay =~= prefix + crate::sql::and_operand(cs.last()));
        assert(hay.subrange(start, start + crate::sql::and_operand(cs[k]).len())
            =~= crate::sql::and_operand(cs[k]));
        lemma_operand_holds_clause(hay, cs[k], start);
    } else {
        lemma_operand_occurs(cs.drop_last(), k);
        let sub = joined_operands(cs.drop_last());
        let i = choose|i: int| occurs_at(sub, cs.drop_last()[k], i);
        assert(hay.subrange(i, i + cs[k].len()) =~= sub.subrange(i, i + cs[k].len()));
        assert(occurs_at(hay, cs[k], i));
    }
}

/// Law: the compiled predicate of a condition contains every one of its
/// clauses, character for character; none is silently dropped.
pub proof fn lemma_every_clause_joined(cs: Seq<Seq<char>>, k: int)
    requires
        0 <= k < cs.len(),
    ensures
        exists|i: int| occurs_at(and_join(cs), cs[k], i),
{
    if cs.len() == 1 {
        let hay = and_join(cs);
        assert(hay.subrange(0, cs[0].len() as int) =~= cs[0]);
        assert(occurs_at(hay, cs[0], 0));
    } else {
        lemma_operand_occurs(cs, k);
        let i = choose|i: int| occurs_at(joined_operands(cs), cs[k], i);
        assert(occurs_at(and_join(cs), cs[k], i));
    }
}

proof fn lemma_joined_operands_step(cs: Seq<Seq<char>>, i: int)
    requires
        2 <= i <= cs.len(),
    ensures
        joined_operands(cs.take(i)) == joined_operands(cs.take(i - 1)) + " AND "@
            + crate::sql::and_operand(cs[i - 1]),
{
    assert(cs.take(i).drop_last() =~= cs.take(i - 1));
    assert(cs.take(i).last() == cs[i - 1]);
}

/// Whether every clause of a condition holds a parseable boolean
/// expression; a condition with no clauses trivially qualifies.
pub open spec fn all_clauses_accepted(cs: Seq<Seq<char>>) -> bool {
    forall|k: int| 0 <= k < cs.len() ==> crate::sql::expr_accepted(#[trigger] cs[k])
}

impl Condition {
    /// Compiles all filter clauses into one SQL `WHERE` predicate text:
    /// the clauses in their original order, joined with `AND`, each scoped
    /// as its own sub-expression so that a clause holding an `OR` cannot
    /// leak into the chain.  Each clause must parse, whole, as a
    /// standalone boolean expression — one that does not is a
    /// configuration defect and is reported here, before any query is
    /// touched.  An empty clause list compiles to the empty text, which
    /// imposes no restriction; a single clause compiles verbatim.
    pub fn to_sql_where_condition(&self) -> (r: Result<String, crate::sql::SqlError>)
        ensures
            ({
                let cs = self.filter_clauses.deep_view();
                if all_clauses_accepted(cs) {
                    r matches Ok(s) && s@ == and_join(cs)
                } else {
                    r == Err::<String, _>(crate::sql::SqlError::PredicateParse)
                }
            }),
    {
        let ghost cs = self.filter_clauses.deep_view();
        let mut k: usize = 0;
        while k < self.filter_clauses.len()
            invariant
                0 <= k <= self.filter_clauses@.len(),
                cs == self.filter_clauses.deep_view(),
                forall|j: int| 0 <= j < k ==> crate::sql::expr_accepted(#[trigger] cs[j]),
            decreases self.filter_clauses@.len() - k,
        {
            if !crate::sql::expr_is_accepted(self.filter_clauses[k].as_str()) {
                proof {
                    assert(!all_clauses_accepted(cs)) by {
                        assert(!crate::sql::expr_accepted(cs[k as int]));
                    }
                }
                return Err(crate::sql::SqlError::PredicateParse);
            }
            k = k + 1;
        }
        if self.filter_clauses.len() == 0 {
            return Ok(String::new());
        }
        if self.filter_clauses.len() == 1 {
            return Ok(self.filter_clauses[0].clone());
        }
        let mut result: String = crate::sql::wrap_operand(self.filter_clauses[0].as_str());
        assert(result@ == joined_operands(cs.take(1)));
        let mut i: usize = 1;
        while i < self.filter_clauses.len()
            invariant
                1 <= i <= self.filter_clauses@.len(),
                cs == self.filter_clauses.deep_view(),
                result@ == joined_operands(cs.take(i as int)),
            decreases self.filter_clauses@.len() - i,
        {
            result.append(" AND ");
            let scoped = crate::sql::wrap_operand(self.filter_clauses[i].as_str());
            result.append(scoped.as_str());
            proof {
                lemma_joined_operands_step(cs, i + 1);
            }
            i = i + 1;
        }
        proof {
            assert(cs.take(cs.len() as int) =~= cs);
        }
        Ok(result)
    }

    /// Rewrites a SQL statement so that it carries this condition's
    /// compiled predicate in its filtering clause.  A condition with no
    /// clauses imposes no restriction: the statement comes back unchanged.
    /// A malformed clause is reported before the statement is looked at.
    pub fn apply_to_query(&self, sql: &str) -> (r: Result<String, crate::sql::SqlError>)
        ensures
            ({
                let cs = self.filter_clauses.deep_view();
                let c = and_join(cs);
                if !all_clauses_accepted(cs) {
                    r == Err::<String, _>(crate::sql::SqlError::PredicateParse)
                } else if c.len() == 0 {
                    r matches Ok(t) && t@ == sql@
                } else {
                    crate::sql::rewrite_matches(r, crate::sql::rewrite_result(sql@, c))
                }
            }),
    {
        let condition = match self.to_sql_where_condition() {
            Ok(c) => c,
            Err(e) => return Err(e),
        };
        if condition.as_str().is_empty() {
            return Ok(sql.to_owned());
        }
        crate::sql::add_where_condition(sql, condition.as_str())
    }
}

} // verus!

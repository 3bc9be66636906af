//! Structural rewriting of SQL statements.
//!
//! [`add_where_condition`] parses a statement, locates the filtering clause
//! of its top-level select body, and injects an additional predicate so
//! that the result is the existing clause `AND` the new one.  Each operand
//! of that conjunction is scoped: one whose top level would leak into the
//! `AND` chain (an `OR` disjunction) is parenthesized, so the injected
//! restriction always applies to the whole statement.  The work on the
//! parsed representation is done by the `sqlparser` crate behind a few
//! trusted wrappers; every decision — which inputs are rejected, and what
//! text is injected — is made here.

use vstd::prelude::*;
use vstd::string::StringExecFns;
use sqlparser::ast::BinaryOperator;
use sqlparser::ast::Expr;
use sqlparser::ast::SetExpr;
use sqlparser::ast::Statement;
use sqlparser::dialect::GenericDialect;
use sqlparser::parser::Parser;
use sqlparser::tokenizer::Token;

verus! {

/// Why a statement could not be rewritten.
#[derive(Clone, Copy, Debug, PartialEq, Eq, Structural)]
pub enum SqlError {
    /// The input text is not parseable SQL, or holds no statement.
    Syntax,
    /// The input parses, but is not a single plain select statement over a
    /// single data source; the rewriter rejects it rather than rewrite
    /// only part of it.
    UnsupportedStatement,
    /// The predicate text is not a parseable boolean expression; a defect
    /// in a rule's configuration, not in the query.
    PredicateParse,
}

/// Whether `sqlparser::parser::Parser::parse_sql` under the generic dialect
/// accepts this text: it returns `Ok` with at least one statement.
pub uninterp spec fn sql_accepted(s: Seq<char>) -> bool;

/// Whether this text parses to exactly one statement, a query whose body
/// is a plain select drawing from at most one data source — no join, no
/// second `FROM` item, no set operation, no top-level sub-select.
pub uninterp spec fn sql_single_select(s: Seq<char>) -> bool;

/// The rendered text of the single select statement's `WHERE` expression,
/// if it has one.  Meaningful only where `sql_single_select` holds.
pub uninterp spec fn sql_where_clause(s: Seq<char>) -> Option<Seq<char>>;

/// Whether `sqlparser::parser::Parser::parse_expr` under the generic
/// dialect accepts the whole text as one expression: parsing succeeds and
/// consumes the text to its end.
pub uninterp spec fn expr_accepted(s: Seq<char>) -> bool;

/// Whether the whole text parses as one expression that can stand as an
/// operand of `AND` without parentheses: under the generic dialect's
/// precedences, its top level is neither an `OR` nor an `XOR` disjunction.
pub uninterp spec fn expr_and_operand(s: Seq<char>) -> bool;

/// The rendered text of the single select statement of `s` with its
/// `WHERE` clause replaced by the expression parsed from `f`.  Meaningful
/// only where `sql_single_select(s)` and `expr_accepted(f)` hold.
pub uninterp spec fn rewritten_sql(s: Seq<char>, f: Seq<char>) -> Seq<char>;

/// Shape of a parsed statement, as far as the rewriter needs it.
enum QueryShape {
    /// Not parseable, or no statement in the text.
    Invalid,
    /// Parseable, but not exactly one plain single-source select.
    Unsupported,
    /// A single plain single-source select; holds the rendered text of its
    /// existing `WHERE` expression, if any.
    Select(Option<String>),
}

/// Relies on `sqlparser::parser::Parser::parse_sql` with `GenericDialect`,
/// and on the `Display` rendering of `sqlparser::ast::Expr`, both
/// deterministic functions of the text: reports whether the text is a
/// single plain select statement over at most one data source and, if so,
/// the rendered text of its existing `WHERE` expression.
#[verifier::external_body]
fn inspect_select(sql: &str) -> (r: QueryShape)
    ensures
        match r {
            QueryShape::Invalid => !sql_accepted(sql@),
            QueryShape::Unsupported => sql_accepted(sql@) && !sql_single_select(sql@),
            QueryShape::Select(w) => sql_accepted(sql@) && sql_single_select(sql@)
                && w.deep_view() == sql_where_clause(sql@),
        },
{
    let Ok(stmts) = Parser::parse_sql(&GenericDialect {}, sql) else { return QueryShape::Invalid };
    let mut it = stmts.into_iter();
    let q = match (it.next(), it.next()) {
        (None, _) => return QueryShape::Invalid,
        (Some(Statement::Query(q)), None) => q,
        (Some(_), _) => return QueryShape::Unsupported,
    };
    let SetExpr::Select(sel) = *q.body else { return QueryShape::Unsupported };
    if sel.from.len() > 1 || sel.from.iter().any(|t| !t.joins.is_empty()) {
        return QueryShape::Unsupported;
    }
    match sel.selection {
        Some(e) => QueryShape::Select(Some(e.to_string())),
        None => QueryShape::Select(None),
    }
}

/// Relies on `sqlparser::parser::Parser::parse_sql`, `Parser::try_with_sql`,
/// `Parser::parse_expr` and `Parser::expect_token` with `GenericDialect`, and
/// on the `Display` rendering of `sqlparser::ast::Statement`, all
/// deterministic functions of the texts: re-renders the single
/// single-source select statement of `sql` with its `WHERE` clause
/// replaced by the expression parsed from the whole of `filter`.
#[verifier::external_body]
fn render_with_filter(sql: &str, filter: &str) -> (r: Option<String>)
    ensures
        match r {
            Option::Some(t) => sql_accepted(sql@) && sql_single_select(sql@)
                && expr_accepted(filter@) && t@ == rewritten_sql(sql@, filter@),
            Option::None => !(sql_accepted(sql@) && sql_single_select(sql@)
                && expr_accepted(filter@)),
        },
{
    let dialect = GenericDialect {};
    let stmts = Parser::parse_sql(&dialect, sql).ok()?;
    let mut parser = Parser::new(&dialect).try_with_sql(filter).ok()?;
    let expr = parser.parse_expr().ok()?;
    parser.expect_token(&Token::EOF).ok()?;
    let [stmt] = <[Statement; 1]>::try_from(stmts).ok()?;
    let Statement::Query(mut q) = stmt else { return None };
    let SetExpr::Select(sel) = q.body.as_mut() else { return None };
    if sel.from.len() > 1 || sel.from.iter().any(|t| !t.joins.is_empty()) { return None; }
    sel.selection = Some(expr);
    Some(Statement::Query(q).to_string())
}

/// Relies on `sqlparser::parser::Parser::try_with_sql`,
/// `Parser::parse_expr` and `Parser::expect_token` with `GenericDialect`,
/// deterministic functions of the text: whether the whole text parses as
/// one expression, with nothing left over.
#[verifier::external_body]
pub(crate) fn expr_is_accepted(s: &str) -> (r: bool)
    ensures
        r == expr_accepted(s@),
{
    let Ok(mut parser) = Parser::new(&GenericDialect {}).try_with_sql(s) else { return false };
    let Ok(_) = parser.parse_expr() else { return false };
    parser.expect_token(&Token::EOF).is_ok()
}

/// Relies on `sqlparser::parser::Parser::try_with_sql`,
/// `Parser::parse_expr` and `Parser::expect_token` with `GenericDialect`:
/// whether the whole text parses as one expression whose top level is not
/// an `OR` or `XOR` disjunction — everything else binds at least as
/// tightly as `AND` under the generic dialect's precedences.
#[verifier::external_body]
pub(crate) fn expr_is_and_operand(s: &str) -> (r: bool)
    ensures
        r == expr_and_operand(s@),
{
    let Ok(mut parser) = Parser::new(&GenericDialect {}).try_with_sql(s) else { return false };
    let Ok(expr) = parser.parse_expr() else { return false };
    parser.expect_token(&Token::EOF).is_ok()
        && !matches!(expr, Expr::BinaryOp { op: BinaryOperator::Or | BinaryOperator::Xor, .. })
}

/// The text of one operand of an `AND` conjunction: the expression itself
/// where its top level already binds at least as tightly as `AND`, and the
/// expression in parentheses where it would leak into the chain.
pub open spec fn and_operand(s: Seq<char>) -> Seq<char> {
    if expr_and_operand(s) {
        s
    } else {
        "("@ + s + ")"@
    }
}

/// The filter text the rewriter injects: the predicate itself where the
/// statement has no filtering clause yet, and the existing clause followed
/// by `AND` and the predicate where it has one.  Both conjuncts are scoped
/// as units: the existing clause is kept intact, never re-ordered or
/// simplified, and neither operand's internal structure can capture the
/// other.
pub open spec fn combined_filter(existing: Option<Seq<char>>, p: Seq<char>) -> Seq<char> {
    match existing {
        Option::None => p,
        Option::Some(e) => and_operand(e) + " AND "@ + and_operand(p),
    }
}

/// What rewriting a statement with a predicate text returns, for every
/// input: the error that rejects it, or the re-rendered statement.
pub open spec fn rewrite_result(sql: Seq<char>, p: Seq<char>) -> Result<Seq<char>, SqlError> {
    if !sql_accepted(sql) {
        Result::Err(SqlError::Syntax)
    } else if !sql_single_select(sql) {
        Result::Err(SqlError::UnsupportedStatement)
    } else {
        let f = combined_filter(sql_where_clause(sql), p);
        if expr_accepted(f) {
            Result::Ok(rewritten_sql(sql, f))
        } else {
            Result::Err(SqlError::PredicateParse)
        }
    }
}

/// Whether an executable rewrite outcome is the stated one.
pub open spec fn rewrite_matches(r: Result<String, SqlError>, expected: Result<Seq<char>, SqlError>) -> bool {
    match (r, expected) {
        (Result::Ok(t), Result::Ok(s)) => t@ == s,
        (Result::Err(a), Result::Err(b)) => a == b,
        _ => false,
    }
}

/// Law: an operand is scoped exactly as needed — one that already binds at
/// least as tightly as `AND` stands verbatim, one whose top level would
/// leak into the chain is wrapped in parentheses.
pub proof fn lemma_operand_scoping(s: Seq<char>)
    ensures
        expr_and_operand(s) ==> and_operand(s) == s,
        !expr_and_operand(s) ==> and_operand(s) == "("@ + s + ")"@,
{
}

/// Law: where a statement has no filtering clause, the injected clause is
/// exactly the compiled predicate.
pub proof fn lemma_no_filter_attaches_exactly(p: Seq<char>)
    ensures
        combined_filter(Option::None, p) == p,
{
}

/// Law: where a statement has filtering clause `e`, the new clause is the
/// scoped `e` followed by `AND` and the scoped predicate `p`; both stand
/// intact — character for character — inside the combination.
pub proof fn lemma_existing_filter_preserved(e: Seq<char>, p: Seq<char>)
    ensures
        combined_filter(Option::Some(e), p) == and_operand(e) + " AND "@ + and_operand(p),
        exists|i: int| crate::define::occurs_at(combined_filter(Option::Some(e), p), e, i),
        exists|i: int| crate::define::occurs_at(combined_filter(Option::Some(e), p), p, i),
{
    let c = combined_filter(Option::Some(e), p);
    reveal_strlit("(");
    reveal_strlit(")");
    let ei: int = if expr_and_operand(e) { 0 } else { 1 };
    assert(c.subrange(ei, ei + e.len()) =~= e);
    assert(crate::define::occurs_at(c, e, ei));
    let pi: int = if expr_and_operand(p) { c.len() - p.len() } else { c.len() - p.len() - 1 };
    assert(c.subrange(pi, pi + p.len()) =~= p);
    assert(crate::define::occurs_at(c, p, pi));
}

/// One operand of an `AND` conjunction, scoped as [`and_operand`] says:
/// parenthesized exactly where its top level would otherwise leak.
pub(crate) fn wrap_operand(s: &str) -> (r: String)
    ensures
        r@ == and_operand(s@),
{
    if expr_is_and_operand(s) {
        s.to_owned()
    } else {
        let mut f: String = "(".to_owned();
        f.append(s);
        f.append(")");
        f
    }
}

/// Parses `sql`, and injects `condition` into the filtering clause of its
/// single top-level select body: the existing clause, if any, is kept
/// intact and the new predicate is `AND`-ed after it, each scoped as a
/// unit so that neither can capture the other.  Statements that are not a
/// single plain select over a single data source are rejected, never
/// partially rewritten.
pub fn add_where_condition(sql: &str, condition: &str) -> (r: Result<String, SqlError>)
    ensures
        rewrite_matches(r, rewrite_result(sql@, condition@)),
{
    match inspect_select(sql) {
        QueryShape::Invalid => Err(SqlError::Syntax),
        QueryShape::Unsupported => Err(SqlError::UnsupportedStatement),
        QueryShape::Select(existing) => {
            let filter: String = match existing {
                None => condition.to_owned(),
                Some(e) => {
                    let mut f = wrap_operand(e.as_str());
                    f.append(" AND ");
                    let scoped = wrap_operand(condition);
                    f.append(scoped.as_str());
                    f
                },
            };
            assert(filter@ == combined_filter(sql_where_clause(sql@), condition@));
            match render_with_filter(sql, filter.as_str()) {
                Some(t) => Ok(t),
                None => Err(SqlError::PredicateParse),
            }
        },
    }
}

} // verus!

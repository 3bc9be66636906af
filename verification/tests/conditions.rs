use sql_acl::define::Condition;
use sql_acl::sql::SqlError;

#[test]
fn test_condition_to_sql_where_condition() {
    let condition = Condition {
        filter_clauses: vec!["status = 'active'".to_string()],
    };
    assert_eq!(condition.to_sql_where_condition().unwrap(), "status = 'active'");

    let condition = Condition {
        filter_clauses: vec!["status = 'active'".to_string(), "age > 18".to_string()],
    };
    assert_eq!(
        condition.to_sql_where_condition().unwrap(),
        "status = 'active' AND age > 18"
    );

    let condition = Condition { filter_clauses: vec![] };
    assert_eq!(condition.to_sql_where_condition().unwrap(), "");
}

#[test]
fn test_condition_apply_to_query() {
    let condition = Condition {
        filter_clauses: vec!["status = 'active'".to_string(), "age > 18".to_string()],
    };

    let sql = "SELECT * FROM users";
    let result = condition.apply_to_query(sql).unwrap();
    assert_eq!(result, "SELECT * FROM users WHERE status = 'active' AND age > 18");

    let sql = "SELECT * FROM users WHERE gender = 'male'";
    let result = condition.apply_to_query(sql).unwrap();
    assert_eq!(
        result,
        "SELECT * FROM users WHERE gender = 'male' AND status = 'active' AND age > 18"
    );
}

#[test]
fn test_three_clauses_joined_in_order() {
    let condition = Condition {
        filter_clauses: vec![
            "x = 1".to_string(),
            "y = 2".to_string(),
            "z = 3".to_string(),
        ],
    };
    let compiled = condition.to_sql_where_condition().unwrap();
    assert_eq!(compiled, "x = 1 AND y = 2 AND z = 3");
    for clause in &condition.filter_clauses {
        assert!(compiled.contains(clause.as_str()));
    }
}

#[test]
fn test_reordered_clauses_keep_every_clause() {
    let condition = Condition {
        filter_clauses: vec!["y = 2".to_string(), "x = 1".to_string()],
    };
    let compiled = condition.to_sql_where_condition().unwrap();
    assert_eq!(compiled, "y = 2 AND x = 1");
    assert!(compiled.contains("x = 1"));
    assert!(compiled.contains("y = 2"));
}

#[test]
fn test_or_clause_scoped_inside_condition() {
    let condition = Condition {
        filter_clauses: vec![
            "status = 'active' OR status = 'new'".to_string(),
            "age > 18".to_string(),
        ],
    };
    assert_eq!(
        condition.to_sql_where_condition().unwrap(),
        "(status = 'active' OR status = 'new') AND age > 18"
    );
}

#[test]
fn test_single_or_clause_compiles_verbatim() {
    let condition = Condition {
        filter_clauses: vec!["a = 1 OR b = 2".to_string()],
    };
    assert_eq!(condition.to_sql_where_condition().unwrap(), "a = 1 OR b = 2");
}

#[test]
fn test_trailing_text_clause_rejected() {
    let condition = Condition {
        filter_clauses: vec!["age > 18 nonsense".to_string()],
    };
    assert_eq!(condition.to_sql_where_condition(), Err(SqlError::PredicateParse));
}

#[test]
fn test_empty_condition_leaves_query_unchanged() {
    let condition = Condition { filter_clauses: vec![] };
    let sql = "SELECT * FROM users WHERE gender = 'male'";
    assert_eq!(condition.apply_to_query(sql).unwrap(), sql);
}

#[test]
fn test_malformed_clause_is_reported_before_any_query() {
    let condition = Condition {
        filter_clauses: vec!["status = 'active'".to_string(), "age >".to_string()],
    };
    assert_eq!(condition.to_sql_where_condition(), Err(SqlError::PredicateParse));
    assert_eq!(
        condition.apply_to_query("SELECT * FROM users"),
        Err(SqlError::PredicateParse)
    );
}

#[test]
fn test_empty_clause_text_is_a_configuration_defect() {
    let condition = Condition { filter_clauses: vec!["".to_string()] };
    assert_eq!(condition.to_sql_where_condition(), Err(SqlError::PredicateParse));
}

#[test]
fn test_empty_condition_skips_even_unparseable_text() {
    let condition = Condition { filter_clauses: vec![] };
    let not_sql = "definitely not a statement";
    assert_eq!(condition.apply_to_query(not_sql).unwrap(), not_sql);
}

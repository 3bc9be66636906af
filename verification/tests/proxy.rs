use sql_acl::postgresql::PostgreSQLConfig;
use sql_acl::postgresql::PostgreSQLProxy;

#[test]
fn test_postgresql_config_creation() {
    let config = PostgreSQLConfig::new("localhost", 5432, "testdb", "user", "password");
    assert_eq!(config.host, "localhost");
    assert_eq!(config.port, 5432);
    assert_eq!(config.database, "testdb");
    assert_eq!(config.username, "user");
    assert_eq!(config.password, "password");
}

#[test]
fn test_execute_query_with_condition() {
    let config = PostgreSQLConfig::new("localhost", 5432, "testdb", "user", "password");
    let proxy = PostgreSQLProxy::new(config);

    let query = "SELECT * FROM users";
    let condition = "age > 18";
    let result = proxy.execute_query(query, Some(condition)).unwrap();
    assert_eq!(result, "SELECT * FROM users WHERE age > 18");
}

#[test]
fn test_execute_query_without_condition() {
    let config = PostgreSQLConfig::new("localhost", 5432, "testdb", "user", "password");
    let proxy = PostgreSQLProxy::new(config);

    let query = "SELECT * FROM users";
    let result = proxy.execute_query(query, None).unwrap();
    assert_eq!(result, "SELECT * FROM users");
}

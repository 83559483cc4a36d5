use stressor_leads::migrations::sql_statements;

#[test]
fn statements_drop_comments_and_blank_lines() {
    let sql = "-- create tables\nCREATE TABLE a (\n  id INT\n);\n\n  -- nothing here\n;\nCREATE INDEX i ON a (id);\n   \n";
    assert_eq!(
        sql_statements(sql),
        vec!["CREATE TABLE a (\n  id INT\n)".to_string(), "CREATE INDEX i ON a (id)".to_string()]
    );
}

#[test]
fn statements_of_empty_or_comment_only_files() {
    assert!(sql_statements("").is_empty());
    assert!(sql_statements("-- only a comment\n;;\n").is_empty());
    assert_eq!(sql_statements("SELECT 1"), vec!["SELECT 1".to_string()]);
    assert_eq!(
        sql_statements("SELECT 1;\r\nSELECT 2 -- trailing\r\n;"),
        vec!["SELECT 1".to_string(), "SELECT 2 -- trailing".to_string()]
    );
}

use storage_gateway::provision::{
    insert_statement, needs_creation, select_statement, table_ensured, table_statement,
    CreateOutcome, ProbeOutcome,
};

#[test]
fn only_a_known_absence_calls_for_creation() {
    assert!(needs_creation(ProbeOutcome::Absent));
    assert!(!needs_creation(ProbeOutcome::Present));
    assert!(!needs_creation(ProbeOutcome::Unknown));
}

#[test]
fn the_table_is_ensured_unless_creation_failed() {
    assert_eq!(table_ensured(&CreateOutcome::Created), Ok(()));
    assert_eq!(table_ensured(&CreateOutcome::AlreadyExists), Ok(()));
    assert_eq!(
        table_ensured(&CreateOutcome::Failed("Access denied for user".to_string())),
        Err("Failed to ensure table exists: Access denied for user".to_string())
    );
}

#[test]
fn the_table_has_a_key_a_name_and_unbounded_text() {
    let sql = table_statement();
    assert!(sql.starts_with("CREATE TABLE IF NOT EXISTS datasets ("));
    assert!(sql.contains("id INT AUTO_INCREMENT PRIMARY KEY,"));
    assert!(sql.contains("name VARCHAR(255) NOT NULL,"));
    assert!(sql.contains("data LONGTEXT NOT NULL"));
    assert!(sql.ends_with(")"));
    let words: Vec<&str> = sql.split_whitespace().collect();
    assert_eq!(
        words.join(" "),
        "CREATE TABLE IF NOT EXISTS datasets ( id INT AUTO_INCREMENT PRIMARY KEY, \
         name VARCHAR(255) NOT NULL, data LONGTEXT NOT NULL )"
    );
}

#[test]
fn rows_are_inserted_and_selected_by_name() {
    assert_eq!(insert_statement(), "INSERT INTO datasets (name, data) VALUES (?, ?)");
    assert_eq!(select_statement(), "SELECT data FROM datasets WHERE name = ?");
}

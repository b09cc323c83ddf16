use qwik_ask::migrations::{get_migrations, MigrationKind, HISTORY_TABLES_SQL};

#[test]
fn test_get_migrations_returns_non_empty() {
    let migrations = get_migrations();
    assert!(!migrations.is_empty(), "Should have at least one migration");
}

#[test]
fn test_migrations_start_at_version_1() {
    let migrations = get_migrations();
    assert_eq!(
        migrations[0].version, 1,
        "First migration should be version 1"
    );
}

#[test]
fn test_migrations_have_sequential_versions() {
    let migrations = get_migrations();
    for (i, migration) in migrations.iter().enumerate() {
        let expected_version = (i + 1) as i64;
        assert_eq!(
            migration.version, expected_version,
            "Migration at index {} should have version {}",
            i, expected_version
        );
    }
}

#[test]
fn test_migrations_have_descriptions() {
    let migrations = get_migrations();
    for migration in migrations {
        assert!(
            !migration.description.is_empty(),
            "Migration {} should have a description",
            migration.version
        );
    }
}

#[test]
fn test_migrations_have_sql() {
    let migrations = get_migrations();
    for migration in migrations {
        assert!(
            !migration.sql.is_empty(),
            "Migration {} should have SQL content",
            migration.version
        );
    }
}

#[test]
fn test_first_migration_creates_tables() {
    let migrations = get_migrations();
    let first = &migrations[0];

    assert!(
        first.sql.contains("CREATE TABLE"),
        "First migration should create tables"
    );
    assert!(
        first.sql.contains("conversations"),
        "First migration should create conversations table"
    );
    assert!(
        first.sql.contains("messages"),
        "First migration should create messages table"
    );
}

#[test]
fn the_first_migration_in_full() {
    let migrations = get_migrations();
    assert_eq!(migrations.len(), 1);
    let first = migrations[0];
    assert_eq!(first.version, 1);
    assert_eq!(first.description, "create_history_tables");
    assert_eq!(first.kind, MigrationKind::Up);
    assert_eq!(first.sql, HISTORY_TABLES_SQL);
    let statements: Vec<&str> =
        first.sql.split(';').map(|s| s.trim()).filter(|s| !s.is_empty()).collect();
    assert_eq!(statements.len(), 4);
    assert!(statements[0].starts_with("CREATE TABLE IF NOT EXISTS conversations ("));
    assert!(statements[1].starts_with("CREATE TABLE IF NOT EXISTS messages ("));
    assert!(statements[1]
        .contains("FOREIGN KEY (conversation_id) REFERENCES conversations(id) ON DELETE CASCADE"));
    assert!(statements[2].starts_with("CREATE INDEX IF NOT EXISTS idx_conversations_updated"));
    assert!(statements[2].ends_with("ON conversations(updated_at DESC)"));
    assert!(statements[3].starts_with("CREATE INDEX IF NOT EXISTS idx_messages_conversation"));
    assert!(statements[3].ends_with("ON messages(conversation_id)"));
}

//! The schema of the chat history, as a list of migrations.

use vstd::prelude::*;

verus! {

/// The direction of a migration.
#[derive(Debug, Clone, Copy, PartialEq, Eq, Structural)]
pub enum MigrationKind {
    /// Brings the schema forward.
    Up,
    /// Takes the schema back.
    Down,
}

/// One step of the schema: it runs once, and its version tells whether it
/// has run.
#[derive(Debug, Clone, Copy, PartialEq, Eq)]
pub struct Migration {
    /// The version that the schema has once this step has run.
    pub version: i64,
    /// What the step does, in a few words.
    pub description: &'static str,
    /// The SQL to run.
    pub sql: &'static str,
    /// The direction of the step.
    pub kind: MigrationKind,
}

/// What the first migration is called.
pub const HISTORY_TABLES: &'static str = "create_history_tables";

/// The SQL of the first migration: the tables of conversations and of
/// messages, and their indexes.
pub const HISTORY_TABLES_SQL: &'static str =
    "\n                CREATE TABLE IF NOT EXISTS conversations (\n                    id TEXT PRIMARY KEY,\n                    title TEXT NOT NULL,\n                    created_at INTEGER NOT NULL,\n                    updated_at INTEGER NOT NULL\n                );\n\n                CREATE TABLE IF NOT EXISTS messages (\n                    id TEXT PRIMARY KEY,\n                    conversation_id TEXT NOT NULL,\n                    role TEXT NOT NULL,\n                    content TEXT NOT NULL,\n                    created_at INTEGER NOT NULL,\n                    FOREIGN KEY (conversation_id) REFERENCES conversations(id) ON DELETE CASCADE\n                );\n\n                CREATE INDEX IF NOT EXISTS idx_conversations_updated \n                    ON conversations(updated_at DESC);\n                CREATE INDEX IF NOT EXISTS idx_messages_conversation \n                    ON messages(conversation_id);\n            ";

/// All migrations, in the order in which they run. Their versions count up
/// from 1.
pub fn get_migrations() -> (migrations: Vec<Migration>)
    ensures
        migrations@.len() == 1,
        forall|i: int| 0 <= i < migrations@.len() ==> (#[trigger] migrations@[i]).version == i + 1,
        migrations@[0].description@ == HISTORY_TABLES@,
        migrations@[0].sql@ == HISTORY_TABLES_SQL@,
        migrations@[0].kind == MigrationKind::Up,
{
    let mut migrations: Vec<Migration> = Vec::new();
    migrations.push(
        Migration {
            version: 1,
            description: HISTORY_TABLES,
            sql: HISTORY_TABLES_SQL,
            kind: MigrationKind::Up,
        },
    );
    migrations
}

} // verus!

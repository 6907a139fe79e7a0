//! The SQL that the store is driven with.
//!
//! The order of the columns is the same everywhere: in the tables, in the
//! insert statements, in the listings, and in the rows that the entity
//! modules write and read.

use vstd::prelude::*;
use crate::value::SqlValue;

verus! {

/// A statement for the store to run: its SQL text and the values to bind to
/// its parameters, the first value to `?1`, the second to `?2`, and so on.
#[derive(Clone, Debug, PartialEq)]
pub struct Statement {
    pub sql: &'static str,
    pub values: Vec<SqlValue>,
}

/// Creates the three tables where they do not exist yet. Running it again on
/// the same store changes nothing.
pub const CREATE_SCHEMA: &'static str = "\
CREATE TABLE IF NOT EXISTS clients (
    id TEXT PRIMARY KEY NOT NULL,
    name TEXT NOT NULL,
    tags TEXT NOT NULL DEFAULT '[]',
    contacts TEXT NOT NULL DEFAULT '[]',
    links TEXT NOT NULL DEFAULT '[]',
    next_step TEXT,
    next_step_due TEXT,
    created_at TEXT NOT NULL,
    updated_at TEXT NOT NULL
);
CREATE TABLE IF NOT EXISTS projects (
    id TEXT PRIMARY KEY NOT NULL,
    client_id TEXT,
    kind TEXT NOT NULL,
    project_type TEXT,
    status TEXT,
    title TEXT NOT NULL,
    description TEXT,
    tags TEXT NOT NULL DEFAULT '[]',
    next_step TEXT,
    next_step_due TEXT,
    created_at TEXT NOT NULL,
    updated_at TEXT NOT NULL
);
CREATE TABLE IF NOT EXISTS tasks (
    id TEXT PRIMARY KEY NOT NULL,
    project_id TEXT,
    client_id TEXT,
    title TEXT NOT NULL,
    description TEXT,
    status TEXT NOT NULL,
    due TEXT,
    priority INTEGER,
    effort REAL,
    impact INTEGER,
    confidence REAL,
    is_next_step INTEGER NOT NULL DEFAULT 0,
    tags TEXT NOT NULL DEFAULT '[]',
    links TEXT NOT NULL DEFAULT '[]',
    created_at TEXT NOT NULL,
    updated_at TEXT NOT NULL,
    score REAL
);
";

/// Stores one client. Takes the nine values of a client's row.
pub const INSERT_CLIENT: &'static str = "INSERT INTO clients (id, name, tags, contacts, links, next_step, next_step_due, created_at, updated_at) VALUES (?1, ?2, ?3, ?4, ?5, ?6, ?7, ?8, ?9)";

/// Stores one project. Takes the twelve values of a project's row.
pub const INSERT_PROJECT: &'static str = "INSERT INTO projects (id, client_id, kind, project_type, status, title, description, tags, next_step, next_step_due, created_at, updated_at) VALUES (?1, ?2, ?3, ?4, ?5, ?6, ?7, ?8, ?9, ?10, ?11, ?12)";

/// Stores one task. Takes the seventeen values of a task's row.
pub const INSERT_TASK: &'static str = "INSERT INTO tasks (id, project_id, client_id, title, description, status, due, priority, effort, impact, confidence, is_next_step, tags, links, created_at, updated_at, score) VALUES (?1, ?2, ?3, ?4, ?5, ?6, ?7, ?8, ?9, ?10, ?11, ?12, ?13, ?14, ?15, ?16, ?17)";

/// Lists all clients by name, ascending in the store's default collation.
pub const SELECT_CLIENTS: &'static str = "SELECT id, name, tags, contacts, links, next_step, next_step_due, created_at, updated_at FROM clients ORDER BY name";

/// Lists all projects, the most recently created first.
pub const SELECT_PROJECTS: &'static str = "SELECT id, client_id, kind, project_type, status, title, description, tags, next_step, next_step_due, created_at, updated_at FROM projects ORDER BY created_at DESC";

/// Lists all tasks, the most recently created first.
pub const SELECT_TASKS: &'static str = "SELECT id, project_id, client_id, title, description, status, due, priority, effort, impact, confidence, is_next_step, tags, links, created_at, updated_at, score FROM tasks ORDER BY created_at DESC";

} // verus!

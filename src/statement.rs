use vstd::prelude::*;

verus! {

/// Creates the user table if it is absent.
pub const CREATE_TABLE: &'static str = "CREATE TABLE IF NOT EXISTS users (
        id       VARCHAR PRIMARY KEY,
        name     VARCHAR NOT NULL,
        password BYTEA   NOT NULL
    );";

/// Inserts a user and returns the stored row; a duplicate id fails.
pub const INSERT_USER: &'static str = "INSERT INTO users (id, name, password) VALUES ($1, $2, $3) RETURNING *";

/// Selects the user with an id.
pub const SELECT_USER: &'static str = "SELECT * FROM users WHERE id = $1";

/// Replaces name and verifier of the user with an id.
pub const UPDATE_USER: &'static str = "UPDATE users SET name = $2, password = $3 WHERE id = $1";

/// Deletes the user with an id.
pub const DELETE_USER: &'static str = "DELETE FROM users WHERE id = $1";

/// Column types that the user statements take as parameters.
#[derive(Debug, Clone, Copy, PartialEq, Eq, Structural)]
pub enum ColumnType {
    Varchar,
    Bytea,
}

/// The prepared statements behind the user table, one per operation.
#[derive(Debug, Clone, Copy, PartialEq, Eq, Structural)]
pub enum UserStatement {
    /// Creates the table if it is absent.
    Up,
    /// Inserts a row; fails on a duplicate id.
    Create,
    /// Selects the row with an id.
    Read,
    /// Replaces name and verifier of the row with an id.
    Update,
    /// Deletes the row with an id.
    Delete,
}

impl UserStatement {
    /// The SQL text of each statement: insert and select by id, replace of
    /// every non-key column by id, delete by id.
    pub open spec fn spec_text(self) -> Seq<char> {
        match self {
            UserStatement::Up => CREATE_TABLE@,
            UserStatement::Create => INSERT_USER@,
            UserStatement::Read => SELECT_USER@,
            UserStatement::Update => UPDATE_USER@,
            UserStatement::Delete => DELETE_USER@,
        }
    }

    /// The parameter types, in order, of each statement.
    pub open spec fn spec_param_types(self) -> Seq<ColumnType> {
        match self {
            UserStatement::Up => seq![],
            UserStatement::Create => seq![ColumnType::Varchar, ColumnType::Varchar, ColumnType::Bytea],
            UserStatement::Read => seq![ColumnType::Varchar],
            UserStatement::Update => seq![ColumnType::Varchar, ColumnType::Varchar, ColumnType::Bytea],
            UserStatement::Delete => seq![ColumnType::Varchar],
        }
    }

    /// The SQL text of the statement.
    pub fn text(&self) -> (r: &'static str)
        ensures
            r@ == self.spec_text(),
    {
        match self {
            UserStatement::Up => CREATE_TABLE,
            UserStatement::Create => INSERT_USER,
            UserStatement::Read => SELECT_USER,
            UserStatement::Update => UPDATE_USER,
            UserStatement::Delete => DELETE_USER,
        }
    }

    /// The parameter types, in order.
    pub fn param_types(&self) -> (r: Vec<ColumnType>)
        ensures
            r@ == self.spec_param_types(),
    {
        match self {
            UserStatement::Up => vec![],
            UserStatement::Create => vec![ColumnType::Varchar, ColumnType::Varchar, ColumnType::Bytea],
            UserStatement::Read => vec![ColumnType::Varchar],
            UserStatement::Update => vec![ColumnType::Varchar, ColumnType::Varchar, ColumnType::Bytea],
            UserStatement::Delete => vec![ColumnType::Varchar],
        }
    }

    /// Every statement, each once.
    pub fn all() -> (r: Vec<UserStatement>)
        ensures
            r@ == seq![
                UserStatement::Up,
                UserStatement::Create,
                UserStatement::Read,
                UserStatement::Update,
                UserStatement::Delete,
            ],
    {
        vec![
            UserStatement::Up,
            UserStatement::Create,
            UserStatement::Read,
            UserStatement::Update,
            UserStatement::Delete,
        ]
    }
}

} // verus!

use vstd::prelude::*;

verus! {

/// `sea_query::Values`, the values of one statement in the order of its
/// placeholders. This layer carries them to the driver and never looks
/// inside.
#[verifier::external_type_specification]
#[verifier::external_body]
pub struct ExValues(sea_query::Values);

/// One SQL statement for one call: its text, with positional placeholders,
/// and the values to bind to them, in the order of the placeholders.
#[derive(Debug, Clone, PartialEq)]
pub struct Statement {
    pub sql: String,
    pub values: Option<sea_query::Values>,
}

impl Statement {
    /// A statement without values to bind.
    pub fn from_string(sql: String) -> (statement: Statement)
        ensures
            statement.sql == sql,
            statement.values is None,
    {
        Statement { sql, values: None }
    }

    /// A statement with the values to bind to its placeholders.
    pub fn from_sql_and_values(sql: String, values: sea_query::Values) -> (statement: Statement)
        ensures
            statement.sql == sql,
            statement.values == Some(values),
    {
        Statement { sql, values: Some(values) }
    }
}

} // verus!

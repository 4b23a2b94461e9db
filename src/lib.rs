//! Exercise records for a typing-practice service: the entity model and its
//! builders, the data-access contract with an in-memory table and the steps that
//! drive a SQL connection, and the conversions used by the GraphQL layer.

/// A data-access layer for exercises: the error taxonomy, the generic CRUD
/// capabilities, an in-memory table and the steps of the SQL backends.
pub mod database;

/// Client-facing input types and the mapping of data-access errors to client
/// responses.
pub mod graphql;

/// Database-agnostic models for exercises.
pub mod models;

/// Bearer tokens and the claims of an OpenID Connect identity token.
pub mod openid_connect;

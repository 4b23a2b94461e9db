use crate::models::{Exercise, NewExercise, UpdatedExercise};
use diesel::result::ConnectionError as DieselConnectionError;
use diesel::result::Error as DieselError;
use vstd::prelude::*;

/// An in-memory table of exercises with exact semantics for each operation.
pub mod memory;

/// What holds across the operations on a table of exercises.
pub mod laws;

/// The steps that carry out each operation on a SQL connection.
pub mod sql;

verus! {

/// Error type returned by the data-access operations.
#[derive(Debug, PartialEq, Eq, Clone)]
pub enum Error {
    /// The requested resource could not be found.
    NotFound,
    /// The database query could not be constructed.
    QueryError(String),
    /// An error occurred deserializing the data read from the database.
    DeserializationError(String),
    /// An error occurred serializing the data being sent to the database.
    SerializationError(String),
    /// A catchall error for general server errors, with its detail if any.
    ServerError(Option<String>),
}

/// Result type returned by the data-access operations.
pub type Result<T> = core::result::Result<T, Error>;

/// How a failure reported by diesel is classified, with its message.
pub enum DieselErrorKind {
    /// No row matched a query that expects one.
    NotFound,
    /// The query could not be built.
    QueryBuilder(String),
    /// A stored value could not be read back.
    Deserialization(String),
    /// A value could not be written.
    Serialization(String),
    /// Any other failure: a constraint violation, a lost connection and the like.
    Other(String),
}

#[verifier::external_type_specification]
#[verifier::external_body]
pub struct ExDieselError(DieselError);

#[verifier::external_type_specification]
#[verifier::external_body]
pub struct ExDieselConnectionError(DieselConnectionError);

/// Relies on the variants of `diesel::result::Error` and their `Display` impls:
/// each variant is told apart and its message taken.
#[verifier::external_body]
fn classify_diesel_error(e: DieselError) -> (r: DieselErrorKind) {
    match e {
        DieselError::NotFound => DieselErrorKind::NotFound,
        DieselError::QueryBuilderError(m) => DieselErrorKind::QueryBuilder(m.to_string()),
        DieselError::DeserializationError(m) => DieselErrorKind::Deserialization(m.to_string()),
        DieselError::SerializationError(m) => DieselErrorKind::Serialization(m.to_string()),
        other => DieselErrorKind::Other(other.to_string()),
    }
}

/// Relies on the `Display` impl of `diesel::result::ConnectionError` for its message.
#[verifier::external_body]
fn diesel_connection_error_message(e: DieselConnectionError) -> (r: String) {
    e.to_string()
}

/// The error of this library that a classified diesel failure stands for.
pub fn database_error_of(kind: DieselErrorKind) -> (r: Error)
    ensures
        r == match kind {
            DieselErrorKind::NotFound => Error::NotFound,
            DieselErrorKind::QueryBuilder(m) => Error::QueryError(m),
            DieselErrorKind::Deserialization(m) => Error::DeserializationError(m),
            DieselErrorKind::Serialization(m) => Error::SerializationError(m),
            DieselErrorKind::Other(m) => Error::ServerError(Some(m)),
        },
{
    match kind {
        DieselErrorKind::NotFound => Error::NotFound,
        DieselErrorKind::QueryBuilder(m) => Error::QueryError(m),
        DieselErrorKind::Deserialization(m) => Error::DeserializationError(m),
        DieselErrorKind::Serialization(m) => Error::SerializationError(m),
        DieselErrorKind::Other(m) => Error::ServerError(Some(m)),
    }
}

/// Conversion of other error types into the error of this library.
pub trait IntoDatabaseError {
    fn into_database_error(self) -> Error;
}

/// The error of this library for a failed diesel statement: it always carries
/// the failure's kind, and a server error always carries its detail.
pub fn from_diesel_error(e: DieselError) -> (r: Error)
    ensures
        !(r matches Error::ServerError(None)),
{
    database_error_of(classify_diesel_error(e))
}

/// The error of this library for a failed diesel connection: always a server
/// error with the failure's message.
pub fn from_diesel_connection_error(e: DieselConnectionError) -> (r: Error)
    ensures
        r matches Error::ServerError(Some(_)),
{
    Error::ServerError(Some(diesel_connection_error_message(e)))
}

impl IntoDatabaseError for DieselError {
    fn into_database_error(self) -> Error {
        from_diesel_error(self)
    }
}

impl IntoDatabaseError for DieselConnectionError {
    fn into_database_error(self) -> Error {
        from_diesel_connection_error(self)
    }
}

/// Generic create operation.
pub trait Create<T, R> {
    fn create(&mut self, obj: T) -> Result<R>;
}

/// Generic find-by-id operation.
pub trait FindById<ID, R> {
    fn find_by_id(&mut self, id: ID) -> Result<R>;
}

/// Generic update operation.
pub trait Update<T, R> {
    fn update(&mut self, obj: T) -> Result<R>;
}

/// Generic delete operation.
pub trait DeleteById<ID, R> {
    fn delete_by_id(&mut self, id: ID) -> Result<R>;
}

/// A data access object for exercises: any type with the four operations on
/// exercises.
pub trait ExerciseDao:
    for<'a> Create<&'a NewExercise, Exercise> +
    for<'a> FindById<&'a str, Exercise> +
    for<'a> Update<&'a UpdatedExercise, Exercise> +
    for<'a> DeleteById<&'a str, Exercise> {

}

} // verus!

use crate::database::Error;
use crate::models;
use crate::models::{is_uuid_v4_text, opt_view, NewExerciseBuilder, UpdatedExerciseBuilder};
use vstd::prelude::*;

verus! {

/// Input for creating an exercise through the API. The identifier and the
/// timestamps are never taken from the client.
pub struct NewExercise {
    /// Title of the exercise.
    pub title: String,
    /// Content of the exercise.
    pub body: String,
    /// Optional topic describing the general exercise category.
    pub topic: Option<String>,
}

impl NewExercise {
    /// The creation request for this input, with a fresh identifier.
    pub fn to_new_exercise_model(&self) -> (r: models::NewExercise)
        ensures
            is_uuid_v4_text(r@.id),
            r@.title == self.title@,
            r@.body == self.body@,
            r@.topic == opt_view(self.topic),
    {
        let topic: Option<&str> = match &self.topic {
            Some(t) => Some(t.as_str()),
            None => None,
        };
        NewExerciseBuilder::new().title(self.title.as_str()).body(self.body.as_str()).topic(
            topic,
        ).build()
    }
}

/// Input for updating an exercise through the API. A title, body or topic left
/// out is kept; one that is given replaces the stored one.
pub struct UpdatedExercise {
    /// UUID string.
    pub id: String,
    /// New title of the exercise.
    pub title: Option<String>,
    /// New content of the exercise.
    pub body: Option<String>,
    /// New topic of the exercise.
    pub topic: Option<String>,
}

impl UpdatedExercise {
    /// The update request for this input.
    pub fn to_updated_exercise_model(&self) -> (r: models::UpdatedExercise)
        ensures
            r@.id == self.id@,
            r@.title == opt_view(self.title),
            r@.body == opt_view(self.body),
            r@.topic == match self.topic {
                Some(t) => Some(Some(t@)),
                None => None::<Option<Seq<char>>>,
            },
    {
        let mut update = UpdatedExerciseBuilder::new(self.id.as_str());
        match &self.title {
            Some(t) => {
                update = update.title(t.as_str());
            },
            None => {},
        }
        match &self.body {
            Some(b) => {
                update = update.body(b.as_str());
            },
            None => {},
        }
        match &self.topic {
            Some(t) => {
                update = update.topic(Some(t.as_str()));
            },
            None => {},
        }
        update.build()
    }
}

/// The error a client sees for a failed operation.
pub enum ClientError {
    /// The resource does not exist.
    NotFound,
    /// The request could not be carried out as given, with the reason.
    BadRequest(String),
    /// Something failed on the server; the detail stays there.
    InternalServerError,
}

/// The client-facing error for `e`: `NotFound` stays not found, query and
/// (de)serialization failures are bad requests with their message, and server
/// errors lose their detail.
pub fn client_error(e: Error) -> (r: ClientError)
    ensures
        match e {
            Error::NotFound => r is NotFound,
            Error::QueryError(m) => r == ClientError::BadRequest(m),
            Error::DeserializationError(m) => r == ClientError::BadRequest(m),
            Error::SerializationError(m) => r == ClientError::BadRequest(m),
            Error::ServerError(_) => r is InternalServerError,
        },
{
    match e {
        Error::NotFound => ClientError::NotFound,
        Error::QueryError(m) => ClientError::BadRequest(m),
        Error::DeserializationError(m) => ClientError::BadRequest(m),
        Error::SerializationError(m) => ClientError::BadRequest(m),
        Error::ServerError(_) => ClientError::InternalServerError,
    }
}

impl ClientError {
    /// The message shown to the client.
    pub fn message(&self) -> (r: String)
        ensures
            match self {
                ClientError::NotFound => r@ == "Resource not found"@,
                ClientError::BadRequest(m) => r@ == m@,
                ClientError::InternalServerError => r@ == "An internal server error occurred"@,
            },
    {
        match self {
            ClientError::NotFound => "Resource not found".to_owned(),
            ClientError::BadRequest(m) => m.clone(),
            ClientError::InternalServerError => "An internal server error occurred".to_owned(),
        }
    }

    /// The key of the error's extension: whose side the fault is on.
    pub fn category(&self) -> (r: &'static str)
        ensures
            self is InternalServerError ==> r@ == "server_error"@,
            !(self is InternalServerError) ==> r@ == "client_error"@,
    {
        match self {
            ClientError::InternalServerError => "server_error",
            _ => "client_error",
        }
    }

    /// The value of the error's extension: the kind of fault.
    pub fn code(&self) -> (r: &'static str)
        ensures
            match self {
                ClientError::NotFound => r@ == "not_found"@,
                ClientError::BadRequest(_) => r@ == "bad_request"@,
                ClientError::InternalServerError => r@ == "internal_server_error"@,
            },
    {
        match self {
            ClientError::NotFound => "not_found",
            ClientError::BadRequest(_) => "bad_request",
            ClientError::InternalServerError => "internal_server_error",
        }
    }
}

/// The non-side-effecting queries of the API.
pub struct Query;

impl Query {
    /// The version of the API.
    #[allow(non_snake_case)]
    pub fn apiVersion() -> (r: &'static str)
        ensures
            r@ == "1.0"@,
    {
        "1.0"
    }
}

/// The side-effecting queries of the API.
pub struct Mutation;

} // verus!

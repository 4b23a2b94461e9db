use wikitype_api::database::{
    database_error_of, from_diesel_connection_error, from_diesel_error, DieselErrorKind, Error,
    IntoDatabaseError,
};
use wikitype_api::graphql::{client_error, ClientError, Query};
use wikitype_api::models::{EpochTime, NewExerciseBuilder, UpdatedExerciseBuilder, Uuid};
use wikitype_api::openid_connect::bearer_token;

fn assert_uuid_v4(s: &str) {
    assert_eq!(s.len(), 36);
    for (i, c) in s.chars().enumerate() {
        match i {
            8 | 13 | 18 | 23 => assert_eq!(c, '-'),
            14 => assert_eq!(c, '4'),
            19 => assert!(['8', '9', 'a', 'b'].contains(&c)),
            _ => assert!(c.is_ascii_digit() || ('a'..='f').contains(&c)),
        }
    }
}

#[test]
fn uuid_is_canonical_v4_text() {
    let a = Uuid::new().to_string();
    let b = Uuid::new().to_string();
    assert_uuid_v4(&a);
    assert_uuid_v4(&b);
    assert_ne!(a, b);
}

#[test]
fn epoch_time_now_is_after_2019() {
    let now = EpochTime::now();
    assert!(now.to_timestamp() > 1_546_300_800);
    assert!(now.0 >= 0);
    assert_eq!(EpochTime(42).to_timestamp(), 42);
}

#[test]
fn new_exercise_builder_sets_fields() {
    let new_exercise = NewExerciseBuilder::new()
        .title("Albatross")
        .body("Albatross body")
        .topic(Some("It's a topic!"))
        .build();
    assert_eq!(new_exercise.title, "Albatross");
    assert_eq!(new_exercise.body, "Albatross body");
    assert_eq!(new_exercise.topic, Some(String::from("It's a topic!")));
    assert_uuid_v4(new_exercise.get_id());
    assert!(new_exercise.created_on() > 1_546_300_800);
}

#[test]
fn new_exercise_builders_get_distinct_ids() {
    let a = NewExerciseBuilder::new().title("a").body("b").build();
    let b = NewExerciseBuilder::new().title("a").body("b").build();
    assert_ne!(a.get_id(), b.get_id());
}

#[test]
fn updated_exercise_builder_leaves_unset_fields_alone() {
    let id = Uuid::new().to_string();
    let updated_exercise = UpdatedExerciseBuilder::new(&id)
        .title("Alabatross new")
        .topic(Some("It's a topic!"))
        .build();
    assert_eq!(updated_exercise.get_id(), id);
    assert_eq!(updated_exercise.title, Some(String::from("Alabatross new")));
    assert_eq!(None, updated_exercise.body);
    assert_eq!(updated_exercise.topic, Some(Some(String::from("It's a topic!"))));
    assert!(updated_exercise.modified_on() > 1_546_300_800);
    let untouched = UpdatedExerciseBuilder::new(&id).build();
    assert_eq!(untouched.title, None);
    assert_eq!(untouched.topic, None);
}

#[test]
fn diesel_errors_map_to_the_taxonomy() {
    assert_eq!(diesel::result::Error::NotFound.into_database_error(), Error::NotFound);
    let e = diesel::result::Error::QueryBuilderError(Box::new(std::fmt::Error));
    assert_eq!(e.into_database_error(), Error::QueryError(std::fmt::Error.to_string()));
    let e = diesel::result::Error::DeserializationError(Box::new(std::fmt::Error));
    assert!(matches!(e.into_database_error(), Error::DeserializationError(_)));
    let e = diesel::result::Error::SerializationError(Box::new(std::fmt::Error));
    assert!(matches!(e.into_database_error(), Error::SerializationError(_)));
    let e = diesel::result::Error::RollbackTransaction;
    assert!(matches!(e.into_database_error(), Error::ServerError(Some(_))));
    let e = diesel::result::ConnectionError::BadConnection(String::from("refused"));
    assert_eq!(e.into_database_error(), Error::ServerError(Some(String::from("refused"))));
    let e = diesel::result::ConnectionError::InvalidConnectionUrl(String::from("no url"));
    assert_eq!(from_diesel_connection_error(e), Error::ServerError(Some(String::from("no url"))));
    assert_eq!(from_diesel_error(diesel::result::Error::NotFound), Error::NotFound);
}

#[test]
fn classified_failures_map_one_to_one() {
    assert_eq!(database_error_of(DieselErrorKind::NotFound), Error::NotFound);
    assert_eq!(
        database_error_of(DieselErrorKind::QueryBuilder(String::from("q"))),
        Error::QueryError(String::from("q"))
    );
    assert_eq!(
        database_error_of(DieselErrorKind::Deserialization(String::from("d"))),
        Error::DeserializationError(String::from("d"))
    );
    assert_eq!(
        database_error_of(DieselErrorKind::Serialization(String::from("s"))),
        Error::SerializationError(String::from("s"))
    );
    assert_eq!(
        database_error_of(DieselErrorKind::Other(String::from("o"))),
        Error::ServerError(Some(String::from("o")))
    );
}

#[test]
fn client_errors_hide_server_detail() {
    let c = client_error(Error::NotFound);
    assert_eq!(c.message(), "Resource not found");
    assert_eq!(c.category(), "client_error");
    assert_eq!(c.code(), "not_found");
    let c = client_error(Error::QueryError(String::from("bad column")));
    assert_eq!(c.message(), "bad column");
    assert_eq!(c.code(), "bad_request");
    let c = client_error(Error::DeserializationError(String::from("bad date")));
    assert_eq!(c.message(), "bad date");
    assert_eq!(c.code(), "bad_request");
    let c = client_error(Error::SerializationError(String::from("too early")));
    assert_eq!(c.code(), "bad_request");
    let c = client_error(Error::ServerError(Some(String::from("password=hunter2"))));
    assert!(matches!(c, ClientError::InternalServerError));
    assert_eq!(c.message(), "An internal server error occurred");
    assert_eq!(c.category(), "server_error");
    assert_eq!(c.code(), "internal_server_error");
}

#[test]
fn api_version_is_one_point_zero() {
    assert_eq!(Query::apiVersion(), "1.0");
}

#[test]
fn bearer_token_takes_what_follows_the_scheme() {
    assert_eq!(bearer_token("Bearer abc.def.ghi"), Some(String::from("abc.def.ghi")));
    assert_eq!(bearer_token("Bearer "), Some(String::new()));
    assert_eq!(bearer_token("bearer abc"), None);
    assert_eq!(bearer_token("Basic abc"), None);
    assert_eq!(bearer_token("Bearer"), None);
    assert_eq!(bearer_token(""), None);
}

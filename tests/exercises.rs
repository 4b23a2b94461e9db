use wikitype_api::database::memory::MemoryDatabase;
use wikitype_api::database::{Error, ExerciseDao, FindById};
use wikitype_api::graphql;
use wikitype_api::models::{Exercise, NewExerciseBuilder, UpdatedExerciseBuilder};

const ALBATROSS_BODY: &str = "Albatrosses, of the biological family Diomedeidae, are large \
seabirds related to the procellariids, storm petrels, and diving petrels in the order \
Procellariiformes (the tubenoses).";

fn albatross(db: &mut MemoryDatabase) -> Exercise {
    let new_exercise = NewExerciseBuilder::new().title("Albatross").body(ALBATROSS_BODY).build();
    db.create(&new_exercise).expect("create")
}

fn find(dao: &mut dyn ExerciseDao, id: &str) -> Result<Exercise, Error> {
    FindById::find_by_id(dao, id)
}

#[test]
fn graphql_crud_integration() {
    let mut db = MemoryDatabase::new();
    let input = graphql::NewExercise {
        title: String::from("Albatross"),
        body: String::from(ALBATROSS_BODY),
        topic: None,
    };
    let new_exercise = db.create(&input.to_new_exercise_model()).unwrap();
    assert_eq!(new_exercise.title, "Albatross");
    assert_eq!(new_exercise.topic, None);
    assert_eq!(new_exercise.created_on, new_exercise.modified_on);
    assert_eq!(new_exercise.body, ALBATROSS_BODY);

    let found_exercise = db.find_by_id(&new_exercise.id).unwrap();
    assert_eq!(found_exercise, new_exercise);

    let update = graphql::UpdatedExercise {
        id: new_exercise.id.clone(),
        title: Some(String::from("The Amazing Albatross")),
        body: None,
        topic: None,
    };
    let updated_exercise = db.update(&update.to_updated_exercise_model()).unwrap();
    let expected_exercise = db.find_by_id(&updated_exercise.id).unwrap();
    assert_eq!(expected_exercise.id, updated_exercise.id);
    assert_eq!(updated_exercise.title, "The Amazing Albatross");
    assert_eq!(expected_exercise.body, updated_exercise.body);
    assert_eq!(expected_exercise.topic, updated_exercise.topic);
    assert_eq!(expected_exercise.created_on, updated_exercise.created_on);
    assert!(expected_exercise.modified_on <= updated_exercise.modified_on);

    let deleted_exercise = db.delete_by_id(&new_exercise.id).unwrap();
    assert_eq!(updated_exercise, deleted_exercise);
    let missing = db.find_by_id(&new_exercise.id).unwrap_err();
    let client = graphql::client_error(missing);
    assert_eq!(client.category(), "client_error");
    assert_eq!(client.code(), "not_found");
}

#[test]
fn albatross_create_update_delete_scenario() {
    let mut db = MemoryDatabase::new();
    let created = albatross(&mut db);
    assert!(!created.id.is_empty());
    assert_eq!(created.topic, None);
    assert_eq!(created.created_on, created.modified_on);

    let update = UpdatedExerciseBuilder::new(&created.id)
        .title("Albatross new")
        .topic(Some("It's a topic!"))
        .build();
    let updated = db.update(&update).unwrap();
    assert_eq!(updated.id, created.id);
    assert_eq!(updated.title, "Albatross new");
    assert_eq!(updated.body, ALBATROSS_BODY);
    assert_eq!(updated.topic, Some(String::from("It's a topic!")));
    assert!(updated.modified_on >= created.modified_on);
    assert_eq!(updated.created_on, created.created_on);

    let deleted = db.delete_by_id(&created.id).unwrap();
    assert_eq!(deleted, updated);
    assert_eq!(db.find_by_id(&created.id), Err(Error::NotFound));
}

#[test]
fn create_then_find_returns_the_stored_record() {
    let mut db = MemoryDatabase::new();
    let new_exercise = NewExerciseBuilder::new().title("Owl").body("Owls hoot.").build();
    let created = db.create(&new_exercise).unwrap();
    assert_eq!(created.id, new_exercise.get_id());
    assert_eq!(created.created_on, new_exercise.created_on());
    let found = db.find_by_id(&created.id).unwrap();
    assert_eq!(found, created);
    assert_eq!(found.title, "Owl");
    assert_eq!(found.body, "Owls hoot.");
    assert_eq!(found.topic, None);
    assert_eq!(found.created_on, found.modified_on);
    assert_eq!(db.len(), 1);
}

#[test]
fn create_with_a_stored_id_is_a_server_error() {
    let mut db = MemoryDatabase::new();
    let new_exercise = NewExerciseBuilder::new().title("Owl").body("Owls hoot.").build();
    db.create(&new_exercise).unwrap();
    let again = db.create(&new_exercise);
    assert!(matches!(again, Err(Error::ServerError(Some(_)))));
    assert_eq!(db.len(), 1);
}

#[test]
fn update_title_only_keeps_body_and_topic() {
    let mut db = MemoryDatabase::new();
    let new_exercise = NewExerciseBuilder::new()
        .title("Owl")
        .body("Owls hoot.")
        .topic(Some("Birds"))
        .build();
    let created = db.create(&new_exercise).unwrap();
    let update = UpdatedExerciseBuilder::new(&created.id).title("Barn owl").build();
    let updated = db.update(&update).unwrap();
    assert_eq!(updated.title, "Barn owl");
    assert_eq!(updated.body, "Owls hoot.");
    assert_eq!(updated.topic, Some(String::from("Birds")));
    assert!(updated.modified_on >= created.modified_on);
    assert_eq!(updated.modified_on, update.modified_on());
    assert_eq!(db.find_by_id(&created.id).unwrap(), updated);
}

#[test]
fn update_topic_clear_differs_from_omitting_it() {
    let mut db = MemoryDatabase::new();
    let new_exercise = NewExerciseBuilder::new()
        .title("Owl")
        .body("Owls hoot.")
        .topic(Some("Birds"))
        .build();
    let created = db.create(&new_exercise).unwrap();
    let keep = UpdatedExerciseBuilder::new(&created.id).body("Owls hoot at night.").build();
    let kept = db.update(&keep).unwrap();
    assert_eq!(kept.topic, Some(String::from("Birds")));
    assert_eq!(kept.body, "Owls hoot at night.");
    let clear = UpdatedExerciseBuilder::new(&created.id).topic(None).build();
    assert_eq!(clear.topic, Some(None));
    let cleared = db.update(&clear).unwrap();
    assert_eq!(cleared.topic, None);
    assert_eq!(cleared.body, "Owls hoot at night.");
}

#[test]
fn delete_returns_prior_state_then_not_found() {
    let mut db = MemoryDatabase::new();
    let created = albatross(&mut db);
    let other = NewExerciseBuilder::new().title("Owl").body("Owls hoot.").build();
    let other = db.create(&other).unwrap();
    let deleted = db.delete_by_id(&created.id).unwrap();
    assert_eq!(deleted, created);
    assert_eq!(db.find_by_id(&created.id), Err(Error::NotFound));
    assert_eq!(db.find_by_id(&other.id), Ok(other));
    assert_eq!(db.len(), 1);
}

#[test]
fn missing_id_is_not_found_everywhere() {
    let mut db = MemoryDatabase::new();
    albatross(&mut db);
    let missing = "00000000-0000-4000-8000-000000000000";
    assert_eq!(db.find_by_id(missing), Err(Error::NotFound));
    let update = UpdatedExerciseBuilder::new(missing).title("x").build();
    assert_eq!(db.update(&update), Err(Error::NotFound));
    assert_eq!(db.delete_by_id(missing), Err(Error::NotFound));
    assert_eq!(db.len(), 1);
}

#[test]
fn empty_table_finds_nothing() {
    let db = MemoryDatabase::new();
    assert_eq!(db.len(), 0);
    assert_eq!(db.find_by_id(""), Err(Error::NotFound));
}

#[test]
fn memory_database_is_an_exercise_dao() {
    let mut db = MemoryDatabase::new();
    let created = albatross(&mut db);
    assert_eq!(find(&mut db, &created.id), Ok(created.clone()));
    assert_eq!(find(&mut db, "nope"), Err(Error::NotFound));
}

#[test]
fn api_update_without_topic_keeps_it() {
    let mut db = MemoryDatabase::new();
    let input = graphql::NewExercise {
        title: String::from("Owl"),
        body: String::from("Owls hoot."),
        topic: Some(String::from("Birds")),
    };
    let created = db.create(&input.to_new_exercise_model()).unwrap();
    let keep = graphql::UpdatedExercise {
        id: created.id.clone(),
        title: Some(String::from("Barn owl")),
        body: None,
        topic: None,
    };
    let model = keep.to_updated_exercise_model();
    assert_eq!(model.topic, None);
    let kept = db.update(&model).unwrap();
    assert_eq!(kept.title, "Barn owl");
    assert_eq!(kept.topic, Some(String::from("Birds")));
    let set = graphql::UpdatedExercise {
        id: created.id.clone(),
        title: None,
        body: None,
        topic: Some(String::from("Owls")),
    };
    let model = set.to_updated_exercise_model();
    assert_eq!(model.topic, Some(Some(String::from("Owls"))));
    let changed = db.update(&model).unwrap();
    assert_eq!(changed.topic, Some(String::from("Owls")));
    assert_eq!(changed.title, "Barn owl");
}

use vstd::prelude::*;

verus! {

/// The characters a lower-case hyphenated version-4 UUID of the RFC 4122 variant
/// may hold at position `i`.
pub open spec fn is_uuid_v4_char(i: int, c: char) -> bool {
    if i == 8 || i == 13 || i == 18 || i == 23 {
        c == '-'
    } else if i == 14 {
        c == '4'
    } else if i == 19 {
        c == '8' || c == '9' || c == 'a' || c == 'b'
    } else {
        ('0' <= c && c <= '9') || ('a' <= c && c <= 'f')
    }
}

/// `s` is the canonical text form of a version-4 UUID.
pub open spec fn is_uuid_v4_text(s: Seq<char>) -> bool {
    &&& s.len() == 36
    &&& forall|i: int| 0 <= i < 36 ==> #[trigger] is_uuid_v4_char(i, s[i])
}

/// Relies on `uuid::Uuid::new_v4` and its `Display` impl: a random UUID whose
/// version nibble is 4 and whose variant bits are those of RFC 4122, written as
/// 36 lower-case hex digits and hyphens.
#[verifier::external_body]
fn random_uuid_v4_text() -> (r: String)
    ensures
        is_uuid_v4_text(r@),
{
    uuid::Uuid::new_v4().to_string()
}

/// Relies on `chrono::Utc::now` and `DateTime::timestamp`: the current time in
/// whole seconds since the UNIX epoch, never negative (chrono panics on a clock
/// set before 1970).
#[verifier::external_body]
fn utc_now_seconds() -> (r: i64)
    ensures
        r >= 0,
{
    chrono::Utc::now().timestamp()
}

/// [Version 4 UUID], kept as its canonical text so that any storage engine can
/// hold it.
///
/// [Version 4 UUID]: https://en.wikipedia.org/wiki/Universally_unique_identifier#Version_4_(random)
pub struct Uuid {
    id: String,
}

impl View for Uuid {
    type V = Seq<char>;

    closed spec fn view(&self) -> Seq<char> {
        self.id@
    }
}

impl Uuid {
    /// A fresh random identifier.
    pub fn new() -> (r: Uuid)
        ensures
            is_uuid_v4_text(r@),
    {
        Uuid { id: random_uuid_v4_text() }
    }

    /// The identifier's canonical text.
    pub fn to_string(&self) -> (r: String)
        ensures
            r@ == self@,
    {
        self.id.clone()
    }
}

/// UNIX epoch timestamp: the number of non-leap seconds since January 1, 1970
/// 0:00:00 UTC.
#[derive(Clone, Copy, Debug, PartialEq, Eq, Structural)]
pub struct EpochTime(pub i64);

impl EpochTime {
    /// The current time.
    pub fn now() -> (r: EpochTime)
        ensures
            r.0 >= 0,
    {
        EpochTime(utc_now_seconds())
    }

    /// The timestamp as seconds since the epoch.
    pub fn to_timestamp(&self) -> (r: i64)
        ensures
            r == self.0,
    {
        self.0
    }
}

/// The text view of an optional string.
pub open spec fn opt_view(o: Option<String>) -> Option<Seq<char>> {
    match o {
        Some(s) => Some(s@),
        None => None,
    }
}

/// A copy of an optional string with the same text.
fn clone_opt(o: &Option<String>) -> (r: Option<String>)
    ensures
        opt_view(r) == opt_view(*o),
{
    match o {
        Some(s) => Some(s.clone()),
        None => None,
    }
}

/// An optional borrowed string made owned.
fn to_owned_opt(o: Option<&str>) -> (r: Option<String>)
    ensures
        opt_view(r) == match o {
            Some(s) => Some(s@),
            None => None::<Seq<char>>,
        },
{
    match o {
        Some(s) => Some(s.to_owned()),
        None => None,
    }
}

/// The content of a stored exercise.
pub ghost struct ExerciseView {
    pub id: Seq<char>,
    pub title: Seq<char>,
    pub body: Seq<char>,
    pub topic: Option<Seq<char>>,
    pub created_on: i64,
    pub modified_on: i64,
}

/// A stored exercise.
#[derive(Debug, Clone, PartialEq, Eq)]
pub struct Exercise {
    /// UUID string.
    pub id: String,
    /// Title of the exercise.
    pub title: String,
    /// Content of the exercise.
    pub body: String,
    /// Optional topic describing the general exercise category.
    pub topic: Option<String>,
    /// Creation time in seconds since the epoch.
    pub created_on: i64,
    /// Time of the last modification in seconds since the epoch.
    pub modified_on: i64,
}

impl View for Exercise {
    type V = ExerciseView;

    open spec fn view(&self) -> ExerciseView {
        ExerciseView {
            id: self.id@,
            title: self.title@,
            body: self.body@,
            topic: opt_view(self.topic),
            created_on: self.created_on,
            modified_on: self.modified_on,
        }
    }
}

impl Exercise {
    /// A copy of this exercise.
    pub fn duplicate(&self) -> (r: Exercise)
        ensures
            r@ == self@,
    {
        Exercise {
            id: self.id.clone(),
            title: self.title.clone(),
            body: self.body.clone(),
            topic: clone_opt(&self.topic),
            created_on: self.created_on,
            modified_on: self.modified_on,
        }
    }
}

/// The content of a creation request.
pub ghost struct NewExerciseView {
    pub id: Seq<char>,
    pub title: Seq<char>,
    pub body: Seq<char>,
    pub topic: Option<Seq<char>>,
    pub created_on: i64,
}

/// The record that a creation request stores.
pub open spec fn created_record(n: NewExerciseView) -> ExerciseView {
    ExerciseView {
        id: n.id,
        title: n.title,
        body: n.body,
        topic: n.topic,
        created_on: n.created_on,
        modified_on: n.created_on,
    }
}

/// A request to create an exercise. Its identifier and creation time are chosen
/// when it is built, never by the caller.
#[derive(Clone)]
pub struct NewExercise {
    id: String,
    pub title: String,
    pub body: String,
    pub topic: Option<String>,
    created_on: i64,
}

impl View for NewExercise {
    type V = NewExerciseView;

    closed spec fn view(&self) -> NewExerciseView {
        NewExerciseView {
            id: self.id@,
            title: self.title@,
            body: self.body@,
            topic: opt_view(self.topic),
            created_on: self.created_on,
        }
    }
}

impl NewExercise {
    /// The identifier chosen for the new exercise.
    pub fn get_id(&self) -> (r: &str)
        ensures
            r@ == self@.id,
    {
        self.id.as_str()
    }

    /// The creation instant, in seconds since the epoch.
    pub fn created_on(&self) -> (r: i64)
        ensures
            r == self@.created_on,
    {
        self.created_on
    }

    /// The record this request stores.
    pub fn to_record(&self) -> (r: Exercise)
        ensures
            r@ == created_record(self@),
    {
        Exercise {
            id: self.id.clone(),
            title: self.title.clone(),
            body: self.body.clone(),
            topic: clone_opt(&self.topic),
            created_on: self.created_on,
            modified_on: self.created_on,
        }
    }
}

/// The fields a `NewExerciseBuilder` has collected so far.
pub ghost struct NewExerciseDraft {
    pub id: Seq<char>,
    pub title: Option<Seq<char>>,
    pub body: Option<Seq<char>>,
    pub topic: Option<Seq<char>>,
}

/// Builder for a `NewExercise`: the title and the body are required, the topic
/// is optional, and the identifier is generated.
pub struct NewExerciseBuilder {
    id: String,
    title: Option<String>,
    body: Option<String>,
    topic: Option<String>,
}

impl View for NewExerciseBuilder {
    type V = NewExerciseDraft;

    closed spec fn view(&self) -> NewExerciseDraft {
        NewExerciseDraft {
            id: self.id@,
            title: opt_view(self.title),
            body: opt_view(self.body),
            topic: opt_view(self.topic),
        }
    }
}

impl NewExerciseBuilder {
    /// A builder with a fresh identifier and no fields set.
    pub fn new() -> (r: NewExerciseBuilder)
        ensures
            is_uuid_v4_text(r@.id),
            r@.title is None,
            r@.body is None,
            r@.topic is None,
    {
        NewExerciseBuilder { id: Uuid::new().to_string(), title: None, body: None, topic: None }
    }

    /// Sets the title.
    pub fn title(self, title: &str) -> (r: NewExerciseBuilder)
        ensures
            r@ == (NewExerciseDraft { title: Some(title@), ..self@ }),
    {
        NewExerciseBuilder { title: Some(title.to_owned()), ..self }
    }

    /// Sets the body.
    pub fn body(self, body: &str) -> (r: NewExerciseBuilder)
        ensures
            r@ == (NewExerciseDraft { body: Some(body@), ..self@ }),
    {
        NewExerciseBuilder { body: Some(body.to_owned()), ..self }
    }

    /// Sets or clears the topic.
    pub fn topic(self, topic: Option<&str>) -> (r: NewExerciseBuilder)
        ensures
            r@ == (NewExerciseDraft {
                topic: match topic {
                    Some(t) => Some(t@),
                    None => None::<Seq<char>>,
                },
                ..self@
            }),
    {
        NewExerciseBuilder { topic: to_owned_opt(topic), ..self }
    }

    /// The creation request, stamped with the current time. The title and the
    /// body must have been set.
    pub fn build(self) -> (r: NewExercise)
        requires
            self@.title is Some,
            self@.body is Some,
        ensures
            r@.id == self@.id,
            r@.title == self@.title->Some_0,
            r@.body == self@.body->Some_0,
            r@.topic == self@.topic,
    {
        let title = match self.title {
            Some(t) => t,
            None => String::new(),
        };
        let body = match self.body {
            Some(b) => b,
            None => String::new(),
        };
        let created_on = EpochTime::now().to_timestamp();
        NewExercise {
            id: self.id,
            title,
            body,
            topic: self.topic,
            created_on,
        }
    }
}

/// The content of a partial-update request. `None` leaves a field unchanged; a
/// `topic` of `Some(None)` clears the topic.
pub ghost struct UpdatedExerciseView {
    pub id: Seq<char>,
    pub title: Option<Seq<char>>,
    pub body: Option<Seq<char>>,
    pub topic: Option<Option<Seq<char>>>,
    pub modified_on: i64,
}

/// The text view of a doubly optional string.
pub open spec fn opt_opt_view(o: Option<Option<String>>) -> Option<Option<Seq<char>>> {
    match o {
        Some(t) => Some(opt_view(t)),
        None => None,
    }
}

/// The record `e` after the update `u`: the fields that `u` sets replace those of
/// `e`, the modification time becomes that of `u`, and the rest is kept.
pub open spec fn updated_record(e: ExerciseView, u: UpdatedExerciseView) -> ExerciseView {
    ExerciseView {
        id: e.id,
        title: match u.title {
            Some(t) => t,
            None => e.title,
        },
        body: match u.body {
            Some(b) => b,
            None => e.body,
        },
        topic: match u.topic {
            Some(t) => t,
            None => e.topic,
        },
        created_on: e.created_on,
        modified_on: u.modified_on,
    }
}

/// A request to update an existing exercise. Its modification time is taken
/// when it is built.
#[derive(Clone)]
pub struct UpdatedExercise {
    id: String,
    pub title: Option<String>,
    pub body: Option<String>,
    pub topic: Option<Option<String>>,
    modified_on: i64,
}

impl View for UpdatedExercise {
    type V = UpdatedExerciseView;

    closed spec fn view(&self) -> UpdatedExerciseView {
        UpdatedExerciseView {
            id: self.id@,
            title: opt_view(self.title),
            body: opt_view(self.body),
            topic: opt_opt_view(self.topic),
            modified_on: self.modified_on,
        }
    }
}

impl UpdatedExercise {
    /// The identifier of the exercise to update.
    pub fn get_id(&self) -> (r: &str)
        ensures
            r@ == self@.id,
    {
        self.id.as_str()
    }

    /// The modification instant, in seconds since the epoch.
    pub fn modified_on(&self) -> (r: i64)
        ensures
            r == self@.modified_on,
    {
        self.modified_on
    }

    /// `e` with this update applied.
    pub fn apply_to(&self, e: &Exercise) -> (r: Exercise)
        ensures
            r@ == updated_record(e@, self@),
    {
        let title = match &self.title {
            Some(t) => t.clone(),
            None => e.title.clone(),
        };
        let body = match &self.body {
            Some(b) => b.clone(),
            None => e.body.clone(),
        };
        let topic = match &self.topic {
            Some(t) => clone_opt(t),
            None => clone_opt(&e.topic),
        };
        Exercise {
            id: e.id.clone(),
            title,
            body,
            topic,
            created_on: e.created_on,
            modified_on: self.modified_on,
        }
    }
}

/// The fields an `UpdatedExerciseBuilder` has collected so far.
pub ghost struct UpdateDraft {
    pub id: Seq<char>,
    pub title: Option<Seq<char>>,
    pub body: Option<Seq<char>>,
    pub topic: Option<Option<Seq<char>>>,
}

/// Builder for an `UpdatedExercise`: every field left unset stays unchanged in
/// storage.
pub struct UpdatedExerciseBuilder {
    exercise: UpdatedExercise,
}

impl View for UpdatedExerciseBuilder {
    type V = UpdateDraft;

    closed spec fn view(&self) -> UpdateDraft {
        UpdateDraft {
            id: self.exercise.id@,
            title: opt_view(self.exercise.title),
            body: opt_view(self.exercise.body),
            topic: opt_opt_view(self.exercise.topic),
        }
    }
}

impl UpdatedExerciseBuilder {
    /// A builder for an update of the exercise `id` that changes nothing yet.
    pub fn new(id: &str) -> (r: UpdatedExerciseBuilder)
        ensures
            r@ == (UpdateDraft { id: id@, title: None, body: None, topic: None }),
    {
        UpdatedExerciseBuilder {
            exercise: UpdatedExercise {
                id: id.to_owned(),
                title: None,
                body: None,
                topic: None,
                modified_on: 0,
            },
        }
    }

    /// Sets the new title.
    pub fn title(self, title: &str) -> (r: UpdatedExerciseBuilder)
        ensures
            r@ == (UpdateDraft { title: Some(title@), ..self@ }),
    {
        UpdatedExerciseBuilder {
            exercise: UpdatedExercise { title: Some(title.to_owned()), ..self.exercise },
        }
    }

    /// Sets the new body.
    pub fn body(self, body: &str) -> (r: UpdatedExerciseBuilder)
        ensures
            r@ == (UpdateDraft { body: Some(body@), ..self@ }),
    {
        UpdatedExerciseBuilder {
            exercise: UpdatedExercise { body: Some(body.to_owned()), ..self.exercise },
        }
    }

    /// Sets the new topic: `Some(t)` replaces it, `None` clears it.
    pub fn topic(self, topic: Option<&str>) -> (r: UpdatedExerciseBuilder)
        ensures
            r@ == (UpdateDraft {
                topic: Some(
                    match topic {
                        Some(t) => Some(t@),
                        None => None::<Seq<char>>,
                    },
                ),
                ..self@
            }),
    {
        UpdatedExerciseBuilder {
            exercise: UpdatedExercise { topic: Some(to_owned_opt(topic)), ..self.exercise },
        }
    }

    /// The update request, stamped with the current time.
    pub fn build(self) -> (r: UpdatedExercise)
        ensures
            r@.id == self@.id,
            r@.title == self@.title,
            r@.body == self@.body,
            r@.topic == self@.topic,
    {
        let modified_on = EpochTime::now().to_timestamp();
        UpdatedExercise { modified_on, ..self.exercise }
    }
}

} // verus!

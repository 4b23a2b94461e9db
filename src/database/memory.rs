use crate::database::sql::{resume, start, Command, Next, Operation, Reply};
use crate::database::{Create, DeleteById, Error, ExerciseDao, FindById, Result, Update};
use crate::models::{
    created_record, updated_record, Exercise, ExerciseView, NewExercise, NewExerciseView,
    UpdatedExercise, UpdatedExerciseView,
};
use vstd::prelude::*;

verus! {

/// No two rows share an identifier.
pub open spec fn ids_distinct(rows: Seq<Exercise>) -> bool {
    forall|i: int, j: int|
        0 <= i < rows.len() && 0 <= j < rows.len() && i != j ==> #[trigger] rows[i].id@
            != #[trigger] rows[j].id@
}

/// Some row has identifier `k`.
pub open spec fn has_id(rows: Seq<Exercise>, k: Seq<char>) -> bool {
    exists|i: int| 0 <= i < rows.len() && #[trigger] rows[i].id@ == k
}

/// The table as a map from identifier to record.
pub open spec fn table_of(rows: Seq<Exercise>) -> Map<Seq<char>, ExerciseView> {
    Map::new(
        |k: Seq<char>| has_id(rows, k),
        |k: Seq<char>| rows[choose|i: int| 0 <= i < rows.len() && #[trigger] rows[i].id@ == k]@,
    )
}

proof fn lemma_table_at(rows: Seq<Exercise>, i: int)
    requires
        ids_distinct(rows),
        0 <= i < rows.len(),
    ensures
        table_of(rows).contains_key(rows[i].id@),
        table_of(rows)[rows[i].id@] == rows[i]@,
{
    let k = rows[i].id@;
    assert(has_id(rows, k));
    let j = choose|j: int| 0 <= j < rows.len() && #[trigger] rows[j].id@ == k;
    assert(i == j);
}

proof fn lemma_table_push(rows: Seq<Exercise>, e: Exercise)
    requires
        ids_distinct(rows),
        !has_id(rows, e.id@),
    ensures
        ids_distinct(rows.push(e)),
        table_of(rows.push(e)) =~= table_of(rows).insert(e.id@, e@),
{
    let r2 = rows.push(e);
    assert(ids_distinct(r2)) by {
        assert forall|i: int, j: int|
            0 <= i < r2.len() && 0 <= j < r2.len() && i != j implies #[trigger] r2[i].id@
            != #[trigger] r2[j].id@ by {
            if i < rows.len() && j < rows.len() {
                assert(r2[i] == rows[i] && r2[j] == rows[j]);
            } else if i < rows.len() {
                assert(r2[i] == rows[i]);
            } else {
                assert(r2[j] == rows[j]);
            }
        }
    }
    assert forall|k: Seq<char>| #[trigger] table_of(r2).contains_key(k) == table_of(
        rows,
    ).insert(e.id@, e@).contains_key(k) by {
        if has_id(rows, k) {
            let i = choose|i: int| 0 <= i < rows.len() && #[trigger] rows[i].id@ == k;
            assert(r2[i] == rows[i]);
        }
        if k == e.id@ {
            assert(r2[rows.len() as int] == e);
        }
        if has_id(r2, k) {
            let i = choose|i: int| 0 <= i < r2.len() && #[trigger] r2[i].id@ == k;
            if i < rows.len() {
                assert(r2[i] == rows[i]);
            }
        }
    }
    assert forall|k: Seq<char>| #[trigger] table_of(r2).contains_key(k) implies table_of(r2)[k]
        == table_of(rows).insert(e.id@, e@)[k] by {
        let i = choose|i: int| 0 <= i < r2.len() && #[trigger] r2[i].id@ == k;
        lemma_table_at(r2, i);
        if i < rows.len() {
            assert(r2[i] == rows[i]);
            lemma_table_at(rows, i);
        }
    }
}

proof fn lemma_table_set(rows: Seq<Exercise>, i: int, e: Exercise)
    requires
        ids_distinct(rows),
        0 <= i < rows.len(),
        e.id@ == rows[i].id@,
    ensures
        ids_distinct(rows.update(i, e)),
        table_of(rows.update(i, e)) =~= table_of(rows).insert(e.id@, e@),
{
    let r2 = rows.update(i, e);
    assert(ids_distinct(r2)) by {
        assert forall|a: int, b: int|
            0 <= a < r2.len() && 0 <= b < r2.len() && a != b implies #[trigger] r2[a].id@
            != #[trigger] r2[b].id@ by {
            assert(r2[a].id@ == rows[a].id@);
            assert(r2[b].id@ == rows[b].id@);
        }
    }
    assert forall|k: Seq<char>| #[trigger] table_of(r2).contains_key(k) == table_of(
        rows,
    ).insert(e.id@, e@).contains_key(k) by {
        if has_id(rows, k) {
            let j = choose|j: int| 0 <= j < rows.len() && #[trigger] rows[j].id@ == k;
            assert(r2[j].id@ == rows[j].id@);
        }
        if k == e.id@ {
            assert(r2[i] == e);
        }
        if has_id(r2, k) {
            let j = choose|j: int| 0 <= j < r2.len() && #[trigger] r2[j].id@ == k;
            assert(r2[j].id@ == rows[j].id@);
        }
    }
    assert forall|k: Seq<char>| #[trigger] table_of(r2).contains_key(k) implies table_of(r2)[k]
        == table_of(rows).insert(e.id@, e@)[k] by {
        let j = choose|j: int| 0 <= j < r2.len() && #[trigger] r2[j].id@ == k;
        lemma_table_at(r2, j);
        if j != i {
            assert(r2[j] == rows[j]);
            lemma_table_at(rows, j);
        }
    }
}

proof fn lemma_table_remove(rows: Seq<Exercise>, i: int)
    requires
        ids_distinct(rows),
        0 <= i < rows.len(),
    ensures
        ids_distinct(rows.remove(i)),
        table_of(rows.remove(i)) =~= table_of(rows).remove(rows[i].id@),
{
    let r2 = rows.remove(i);
    let gone = rows[i].id@;
    assert forall|a: int| 0 <= a < r2.len() implies #[trigger] r2[a] == rows[if a < i {
        a
    } else {
        a + 1
    }] by {}
    assert(ids_distinct(r2)) by {
        assert forall|a: int, b: int|
            0 <= a < r2.len() && 0 <= b < r2.len() && a != b implies #[trigger] r2[a].id@
            != #[trigger] r2[b].id@ by {
            let a1 = if a < i { a } else { a + 1 };
            let b1 = if b < i { b } else { b + 1 };
            assert(r2[a] == rows[a1] && r2[b] == rows[b1]);
        }
    }
    assert forall|k: Seq<char>| #[trigger] table_of(r2).contains_key(k) == table_of(
        rows,
    ).remove(gone).contains_key(k) by {
        if has_id(rows, k) && k != gone {
            let j = choose|j: int| 0 <= j < rows.len() && #[trigger] rows[j].id@ == k;
            let j2 = if j < i { j } else { j - 1 };
            assert(r2[j2] == rows[j]);
        }
        if has_id(r2, k) {
            let j = choose|j: int| 0 <= j < r2.len() && #[trigger] r2[j].id@ == k;
            let j1 = if j < i { j } else { j + 1 };
            assert(r2[j] == rows[j1]);
        }
    }
    assert forall|k: Seq<char>| #[trigger] table_of(r2).contains_key(k) implies table_of(r2)[k]
        == table_of(rows).remove(gone)[k] by {
        let j = choose|j: int| 0 <= j < r2.len() && #[trigger] r2[j].id@ == k;
        let j1 = if j < i { j } else { j + 1 };
        assert(r2[j] == rows[j1]);
        lemma_table_at(r2, j);
        lemma_table_at(rows, j1);
    }
}

/// The outcome of creating `n` on the table `before`: a stored identifier
/// violates the primary key and changes nothing; otherwise the new record is
/// stored and returned.
pub open spec fn create_outcome(
    before: Map<Seq<char>, ExerciseView>,
    after: Map<Seq<char>, ExerciseView>,
    n: NewExerciseView,
    r: Result<Exercise>,
) -> bool {
    if before.contains_key(n.id) {
        &&& r matches Err(Error::ServerError(Some(_)))
        &&& after == before
    } else {
        &&& r matches Ok(e) && e@ == created_record(n)
        &&& after == before.insert(n.id, created_record(n))
    }
}

/// The outcome of looking up `id` on `table`.
pub open spec fn find_outcome(
    table: Map<Seq<char>, ExerciseView>,
    id: Seq<char>,
    r: Result<Exercise>,
) -> bool {
    if table.contains_key(id) {
        r matches Ok(e) && e@ == table[id] && e@.id == id
    } else {
        r == Err::<Exercise, Error>(Error::NotFound)
    }
}

/// The outcome of the update `u` on the table `before`: the updated record is
/// stored and returned, or `NotFound` with nothing changed.
pub open spec fn update_outcome(
    before: Map<Seq<char>, ExerciseView>,
    after: Map<Seq<char>, ExerciseView>,
    u: UpdatedExerciseView,
    r: Result<Exercise>,
) -> bool {
    if before.contains_key(u.id) {
        let e = updated_record(before[u.id], u);
        &&& r matches Ok(x) && x@ == e && x@.id == u.id
        &&& after == before.insert(u.id, e)
    } else {
        &&& r == Err::<Exercise, Error>(Error::NotFound)
        &&& after == before
    }
}

/// The outcome of deleting `id` from the table `before`: the record is removed
/// and returned as it was, or `NotFound` with nothing changed.
pub open spec fn delete_outcome(
    before: Map<Seq<char>, ExerciseView>,
    after: Map<Seq<char>, ExerciseView>,
    id: Seq<char>,
    r: Result<Exercise>,
) -> bool {
    if before.contains_key(id) {
        &&& r matches Ok(e) && e@ == before[id] && e@.id == id
        &&& after == before.remove(id)
    } else {
        &&& r == Err::<Exercise, Error>(Error::NotFound)
        &&& after == before
    }
}

/// The outcome of the operation `op` on the table `before`.
pub open spec fn operation_outcome(
    before: Map<Seq<char>, ExerciseView>,
    after: Map<Seq<char>, ExerciseView>,
    op: Operation,
    r: Result<Exercise>,
) -> bool {
    match op {
        Operation::Create(n) => create_outcome(before, after, n@, r),
        Operation::FindById(id) => after == before && find_outcome(before, id@, r),
        Operation::Update(u) => update_outcome(before, after, u@, r),
        Operation::DeleteById(id) => delete_outcome(before, after, id@, r),
    }
}

/// A table of exercises held in memory. Each operation has the meaning that a
/// SQL backend gives it, stated exactly over the table's view.
pub struct MemoryDatabase {
    rows: Vec<Exercise>,
}

impl View for MemoryDatabase {
    type V = Map<Seq<char>, ExerciseView>;

    closed spec fn view(&self) -> Map<Seq<char>, ExerciseView> {
        table_of(self.rows@)
    }
}

impl MemoryDatabase {
    #[verifier::type_invariant]
    spec fn inv(self) -> bool {
        ids_distinct(self.rows@)
    }

    /// An empty table.
    pub fn new() -> (r: MemoryDatabase)
        ensures
            r@ == Map::<Seq<char>, ExerciseView>::empty(),
    {
        let r = MemoryDatabase { rows: Vec::new() };
        assert(r@ =~= Map::<Seq<char>, ExerciseView>::empty());
        r
    }

    /// Moves the rows out, leaving the table empty.
    fn take_rows(&mut self) -> (rows: Vec<Exercise>)
        ensures
            rows@ == old(self).rows@,
            ids_distinct(rows@),
    {
        proof {
            use_type_invariant(&*self);
        }
        let mut emptied = MemoryDatabase { rows: Vec::new() };
        core::mem::swap(self, &mut emptied);
        emptied.rows
    }

    /// The position of the row with identifier `id`.
    fn position(&self, id: &String) -> (r: Option<usize>)
        ensures
            match r {
                Some(i) => i < self.rows@.len() && self.rows@[i as int].id@ == id@,
                None => !has_id(self.rows@, id@),
            },
    {
        let mut i: usize = 0;
        while i < self.rows.len()
            invariant
                i <= self.rows@.len(),
                forall|j: int| 0 <= j < i ==> self.rows@[j].id@ != id@,
            decreases self.rows@.len() - i,
        {
            if self.rows[i].id == *id {
                return Some(i);
            }
            i = i + 1;
        }
        None
    }

    /// The number of stored exercises.
    pub fn len(&self) -> (r: usize)
        ensures
            r == self@.len(),
    {
        proof {
            use_type_invariant(self);
            self.lemma_len();
        }
        self.rows.len()
    }

    proof fn lemma_len(&self)
        requires
            ids_distinct(self.rows@),
        ensures
            self@.len() == self.rows@.len(),
            self@.dom().finite(),
        decreases self.rows@.len(),
    {
        let rows = self.rows@;
        let ids = Seq::new(rows.len(), |i: int| rows[i].id@);
        assert(self@.dom() =~= ids.to_set()) by {
            assert forall|k: Seq<char>| self@.dom().contains(k) implies ids.to_set().contains(k) by {
                let i = choose|i: int| 0 <= i < rows.len() && #[trigger] rows[i].id@ == k;
                assert(ids[i] == k);
            }
            assert forall|k: Seq<char>| ids.to_set().contains(k) implies self@.dom().contains(k) by {
                let i = choose|i: int| 0 <= i < ids.len() && ids[i] == k;
                assert(rows[i].id@ == k);
            }
        }
        assert(ids.no_duplicates()) by {
            assert forall|i: int, j: int| 0 <= i < ids.len() && 0 <= j < ids.len() && i != j implies ids[i] != ids[j] by {
                assert(rows[i].id@ != rows[j].id@);
            }
        }
        ids.unique_seq_to_set();
    }

    /// Stores the exercise that `obj` describes. An identifier that is already
    /// stored violates the primary key: the table is left unchanged.
    pub fn create(&mut self, obj: &NewExercise) -> (r: Result<Exercise>)
        ensures
            create_outcome(old(self)@, final(self)@, obj@, r),
    {
        proof {
            use_type_invariant(&*self);
        }
        let record = obj.to_record();
        match self.position(&record.id) {
            Some(i) => {
                proof {
                    lemma_table_at(self.rows@, i as int);
                }
                Err(Error::ServerError(Some("duplicate exercise id".to_owned())))
            },
            None => {
                let out = record.duplicate();
                proof {
                    lemma_table_push(self.rows@, record);
                }
                let mut rows = self.take_rows();
                rows.push(record);
                self.rows = rows;
                Ok(out)
            },
        }
    }

    /// The exercise stored under `id`.
    pub fn find_by_id(&self, id: &str) -> (r: Result<Exercise>)
        ensures
            find_outcome(self@, id@, r),
    {
        proof {
            use_type_invariant(self);
        }
        let key = id.to_owned();
        match self.position(&key) {
            Some(i) => {
                proof {
                    lemma_table_at(self.rows@, i as int);
                }
                Ok(self.rows[i].duplicate())
            },
            None => Err(Error::NotFound),
        }
    }

    /// Applies `obj` to the exercise it names and returns the stored result.
    pub fn update(&mut self, obj: &UpdatedExercise) -> (r: Result<Exercise>)
        ensures
            update_outcome(old(self)@, final(self)@, obj@, r),
    {
        proof {
            use_type_invariant(&*self);
        }
        let key = obj.get_id().to_owned();
        match self.position(&key) {
            Some(i) => {
                let record = obj.apply_to(&self.rows[i]);
                let out = record.duplicate();
                proof {
                    lemma_table_at(self.rows@, i as int);
                    lemma_table_set(self.rows@, i as int, record);
                }
                let mut rows = self.take_rows();
                rows.set(i, record);
                self.rows = rows;
                Ok(out)
            },
            None => Err(Error::NotFound),
        }
    }

    /// Runs a statement the way a SQL connection does: an insert touches one
    /// row or violates the primary key, a select returns the row or fails with
    /// `NotFound`, and an update or a delete touches the one row with that id,
    /// if any.
    pub fn execute(&mut self, cmd: Command) -> (r: Reply)
        ensures
            match cmd {
                Command::Insert(n) => if old(self)@.contains_key(n@.id) {
                    &&& r matches Reply::Failed(Error::ServerError(Some(_)))
                    &&& final(self)@ == old(self)@
                } else {
                    &&& r == Reply::Affected(1)
                    &&& final(self)@ == old(self)@.insert(n@.id, created_record(n@))
                },
                Command::Select(id) => {
                    &&& final(self)@ == old(self)@
                    &&& if old(self)@.contains_key(id@) {
                        r matches Reply::Row(e) && e@ == old(self)@[id@] && e@.id == id@
                    } else {
                        r == Reply::Failed(Error::NotFound)
                    }
                },
                Command::Update(u) => if old(self)@.contains_key(u@.id) {
                    &&& r == Reply::Affected(1)
                    &&& final(self)@ == old(self)@.insert(
                        u@.id,
                        updated_record(old(self)@[u@.id], u@),
                    )
                } else {
                    &&& r == Reply::Affected(0)
                    &&& final(self)@ == old(self)@
                },
                Command::Delete(id) => if old(self)@.contains_key(id@) {
                    &&& r == Reply::Affected(1)
                    &&& final(self)@ == old(self)@.remove(id@)
                } else {
                    &&& r == Reply::Affected(0)
                    &&& final(self)@ == old(self)@
                },
            },
    {
        match cmd {
            Command::Insert(n) => {
                let r = self.create(&n);
                match r {
                    Ok(_) => Reply::Affected(1),
                    Err(e) => Reply::Failed(e),
                }
            },
            Command::Select(id) => {
                let found = MemoryDatabase::find_by_id(self, id.as_str());
                match found {
                    Ok(e) => Reply::Row(e),
                    Err(e) => Reply::Failed(e),
                }
            },
            Command::Update(u) => match self.update(&u) {
                Ok(_) => Reply::Affected(1),
                Err(_) => Reply::Affected(0),
            },
            Command::Delete(id) => match self.delete_by_id(id.as_str()) {
                Ok(_) => Reply::Affected(1),
                Err(_) => Reply::Affected(0),
            },
        }
    }

    /// Carries out `op` through the steps of the SQL backends, answering each
    /// statement with `execute`. The result and the table are those of the
    /// direct operation.
    pub fn perform(&mut self, op: Operation) -> (r: Result<Exercise>)
        ensures
            operation_outcome(old(self)@, final(self)@, op, r),
    {
        match start(op) {
            Next::Done(r) => r,
            Next::Run(first, stage) => {
                let reply = self.execute(first);
                match resume(stage, reply) {
                    Next::Done(r) => r,
                    Next::Run(second, stage) => {
                        let reply = self.execute(second);
                        match resume(stage, reply) {
                            Next::Done(r) => r,
                            Next::Run(_, _) => Err(Error::ServerError(None)),
                        }
                    },
                }
            },
        }
    }

    /// Removes the exercise stored under `id` and returns it as it was.
    pub fn delete_by_id(&mut self, id: &str) -> (r: Result<Exercise>)
        ensures
            delete_outcome(old(self)@, final(self)@, id@, r),
    {
        proof {
            use_type_invariant(&*self);
        }
        let key = id.to_owned();
        match self.position(&key) {
            Some(i) => {
                proof {
                    lemma_table_at(self.rows@, i as int);
                    lemma_table_remove(self.rows@, i as int);
                }
                let mut rows = self.take_rows();
                let removed = rows.remove(i);
                self.rows = rows;
                Ok(removed)
            },
            None => Err(Error::NotFound),
        }
    }
}

impl<'a> Create<&'a NewExercise, Exercise> for MemoryDatabase {
    fn create(&mut self, obj: &'a NewExercise) -> Result<Exercise> {
        MemoryDatabase::create(self, obj)
    }
}

impl<'a> FindById<&'a str, Exercise> for MemoryDatabase {
    fn find_by_id(&mut self, id: &'a str) -> Result<Exercise> {
        MemoryDatabase::find_by_id(self, id)
    }
}

impl<'a> Update<&'a UpdatedExercise, Exercise> for MemoryDatabase {
    fn update(&mut self, obj: &'a UpdatedExercise) -> Result<Exercise> {
        MemoryDatabase::update(self, obj)
    }
}

impl<'a> DeleteById<&'a str, Exercise> for MemoryDatabase {
    fn delete_by_id(&mut self, id: &'a str) -> Result<Exercise> {
        MemoryDatabase::delete_by_id(self, id)
    }
}

impl ExerciseDao for MemoryDatabase {

}

} // verus!

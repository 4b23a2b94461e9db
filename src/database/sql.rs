use crate::database::{Error, Result};
use crate::models::{Exercise, NewExercise, UpdatedExercise};
use vstd::prelude::*;

verus! {

/// An operation requested of a SQL backend.
pub enum Operation {
    Create(NewExercise),
    FindById(String),
    Update(UpdatedExercise),
    DeleteById(String),
}

/// A parameterized statement on the `exercises` relation for the connection to
/// run.
pub enum Command {
    /// `INSERT` of the new row.
    Insert(NewExercise),
    /// `SELECT … WHERE id = ?`.
    Select(String),
    /// `UPDATE … SET` the columns the request sets, and `modified_on`, `WHERE id = ?`.
    Update(UpdatedExercise),
    /// `DELETE … WHERE id = ?`.
    Delete(String),
}

/// What the connection answered to a command.
pub enum Reply {
    /// The statement ran and touched this many rows.
    Affected(usize),
    /// The query returned this row.
    Row(Exercise),
    /// The statement failed; a query that returned no row fails with `NotFound`.
    Failed(Error),
}

/// Where an operation stands while the connection runs its next command.
pub enum Stage {
    /// The row with this id was inserted and is to be read back.
    Inserted(String),
    /// The answer to the current read is the operation's result.
    Reread,
    /// The update of the row with this id was issued.
    Updated(String),
    /// The row with this id is being read before it is deleted.
    ReadBeforeDelete(String),
    /// The row read before the delete, now being deleted.
    Deleted(Exercise),
}

/// What the caller does next.
pub enum Next {
    /// Runs the command on the connection, then resumes with the stage.
    Run(Command, Stage),
    /// The operation is over, with this result.
    Done(Result<Exercise>),
}

/// A reply that does not fit the command it answers.
pub open spec fn is_protocol_error(r: Next) -> bool {
    r matches Next::Done(Err(Error::ServerError(Some(_))))
}

fn protocol_error() -> (r: Next)
    ensures
        is_protocol_error(r),
{
    Next::Done(Err(Error::ServerError(Some("unexpected reply from the connection".to_owned()))))
}

/// The first command of an operation: a creation inserts, an update issues its
/// statement, and a find or a delete reads the row.
pub fn start(op: Operation) -> (r: Next)
    ensures
        match op {
            Operation::Create(n) => r matches Next::Run(Command::Insert(m), Stage::Inserted(id))
                && m == n && id@ == n@.id,
            Operation::FindById(id) => r == Next::Run(Command::Select(id), Stage::Reread),
            Operation::Update(u) => r matches Next::Run(Command::Update(v), Stage::Updated(id))
                && v == u && id@ == u@.id,
            Operation::DeleteById(id) => r matches Next::Run(
                Command::Select(k),
                Stage::ReadBeforeDelete(j),
            ) && k == id && j@ == id@,
        },
{
    match op {
        Operation::Create(n) => {
            let id = n.get_id().to_owned();
            Next::Run(Command::Insert(n), Stage::Inserted(id))
        },
        Operation::FindById(id) => Next::Run(Command::Select(id), Stage::Reread),
        Operation::Update(u) => {
            let id = u.get_id().to_owned();
            Next::Run(Command::Update(u), Stage::Updated(id))
        },
        Operation::DeleteById(id) => {
            let j = id.clone();
            Next::Run(Command::Select(id), Stage::ReadBeforeDelete(j))
        },
    }
}

/// The step after the connection answered the command of `stage`.
///
/// - An insert is followed by a read of the new row.
/// - An update that touched no row fails with `NotFound`; otherwise the row is
///   read back.
/// - A read before a delete that failed ends the operation with that error and
///   no delete is issued; otherwise the row is deleted, and the row read is the
///   result once the delete touched it (`NotFound` if the row had gone).
/// - A read-back answers the operation.
/// - A failure ends the operation with that error; an answer of the wrong kind
///   is a server error.
pub fn resume(stage: Stage, reply: Reply) -> (r: Next)
    ensures
        reply matches Reply::Failed(e) ==> r == Next::Done(Err::<Exercise, Error>(e)),
        match (stage, reply) {
            (_, Reply::Failed(_)) => true,
            (Stage::Inserted(id), Reply::Affected(_)) => r == Next::Run(
                Command::Select(id),
                Stage::Reread,
            ),
            (Stage::Reread, Reply::Row(e)) => r == Next::Done(Ok::<Exercise, Error>(e)),
            (Stage::Updated(id), Reply::Affected(n)) => if n == 0 {
                r == Next::Done(Err::<Exercise, Error>(Error::NotFound))
            } else {
                r == Next::Run(Command::Select(id), Stage::Reread)
            },
            (Stage::ReadBeforeDelete(id), Reply::Row(e)) => r == Next::Run(
                Command::Delete(id),
                Stage::Deleted(e),
            ),
            (Stage::Deleted(e), Reply::Affected(n)) => if n == 0 {
                r == Next::Done(Err::<Exercise, Error>(Error::NotFound))
            } else {
                r == Next::Done(Ok::<Exercise, Error>(e))
            },
            _ => is_protocol_error(r),
        },
{
    match reply {
        Reply::Failed(e) => Next::Done(Err(e)),
        Reply::Affected(n) => match stage {
            Stage::Inserted(id) => Next::Run(Command::Select(id), Stage::Reread),
            Stage::Updated(id) => {
                if n == 0 {
                    Next::Done(Err(Error::NotFound))
                } else {
                    Next::Run(Command::Select(id), Stage::Reread)
                }
            },
            Stage::Deleted(e) => {
                if n == 0 {
                    Next::Done(Err(Error::NotFound))
                } else {
                    Next::Done(Ok(e))
                }
            },
            _ => protocol_error(),
        },
        Reply::Row(e) => match stage {
            Stage::Reread => Next::Done(Ok(e)),
            Stage::ReadBeforeDelete(id) => Next::Run(Command::Delete(id), Stage::Deleted(e)),
            _ => protocol_error(),
        },
    }
}

} // verus!

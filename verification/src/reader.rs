//! The lifecycle of one query execution.
//!
//! An instance holds at most one payload: a connection, a cursor on an unbound result set, a
//! reader that fetches on request, or a reader that fetches ahead. Beside the payload it
//! keeps the name of the data source, once the driver has reported it. Every transition
//! that needs the driver comes in two parts. The first takes the payload out of the
//! instance, which is idle from then on, and hands it to the caller together with what the
//! driver is to be asked. The second takes the driver's answer and settles the state.
//! Whatever happens between the two, the instance is never seen half moved.
use arrow::datatypes::Schema;
use arrow::ffi::FFI_ArrowSchema;
use vstd::prelude::*;

use crate::error::{truncated, ArrowOdbcError};
use crate::exchange::{
    batch_export_failure, batch_exportable, schema_columns, schema_export_failure,
    schema_exportable, schema_fields, schema_released, schema_to_ffi, zero_column_schema,
    ColumnarBatch, FetchedBatch,
};
use crate::policy::{FetchPolicy, FetchPolicyView};

verus! {

/// The five states of an instance, without their payloads.
#[derive(Clone, Copy, Debug, PartialEq, Eq, Structural)]
pub enum Stage {
    Idle,
    Connection,
    Cursor,
    SequentialReader,
    ConcurrentReader,
}

/// What an instance holds. `C` is the type of an open connection, `K` of a cursor, `R` of a
/// reader bound to a cursor and `P` of a reader that fetches ahead in the background.
pub enum Payload<C, K, R, P> {
    /// Nothing: the instance is fresh, or all its resources are released.
    Empty,
    /// A session is open; no statement has been executed yet.
    Connection(C),
    /// A result set without bound buffers.
    Cursor(K),
    /// Buffers are bound; batches are fetched when asked for.
    Reader(R),
    /// Buffers are bound; a worker fetches the next batch ahead of the request.
    ConcurrentReader(P),
}

/// State of one query execution: the payload that the state owns, and the name of the data
/// source as the driver reported it. The name is needed whenever a schema is derived, so it
/// stays with the instance from one result set to the next.
pub struct ArrowOdbcReader<C, K, R, P> {
    pub payload: Payload<C, K, R, P>,
    pub dbms_name: Option<String>,
}

/// What is to be done once the name of the data source has been asked for.
pub enum QueryStep<C, K> {
    /// Execute the statement on the connection.
    Execute { connection: C, dbms_name: String },
    /// The name could not be read. The statement is not executed; the outcome of the query
    /// is the failure, with the connection handed back.
    Fail { outcome: QueryOutcome<C, K> },
}

/// What the driver answered to a query.
pub enum QueryOutcome<C, K> {
    /// The statement ran and produced no result set.
    NoResultSet,
    /// The statement produced a result set, at the data source of the given name.
    ResultSet { cursor: K, dbms_name: String },
    /// The driver reported an error. The connection is handed back where the driver gave it
    /// back.
    Failed { message: String, connection: Option<C> },
}

/// What is to be done to bind buffers.
pub enum BindStep<K> {
    /// There is no result set: nothing to bind.
    Nothing,
    /// Bind buffers to the cursor under the policy.
    Bind { cursor: K, policy: FetchPolicy },
    /// The policy allows no buffers. The cursor has been released.
    Rejected { error: ArrowOdbcError },
}

/// What is to be done to reach the next result set.
pub enum AdvanceStep<K, R, P> {
    /// Nothing is open that could have a further result set.
    Exhausted,
    /// Ask the cursor for the next result set.
    FromCursor(K),
    /// Unbind the reader, then ask its cursor.
    FromReader(R),
    /// Stop the worker and unbind the reader, then ask its cursor.
    FromConcurrentReader(P),
}

/// What the driver answered when asked for the next result set.
pub enum NextResultSet<K> {
    /// There is none, or nothing was open.
    Absent,
    /// There is one.
    Present { cursor: K },
    /// The driver reported an error; what was open is released.
    Failed { message: String },
}

/// Where the next batch comes from.
pub enum BatchSource<'a, R, P> {
    /// Nothing is open: there is no batch.
    Finished,
    /// Fetch from the reader.
    Sequential(&'a mut R),
    /// Take what the worker fetched.
    Concurrent(&'a mut P),
}

/// Where the schema comes from.
pub enum SchemaSource<'a, K, R, P> {
    /// No result set is open: the schema has no columns.
    NoColumns,
    /// Probe the metadata of the cursor, for the data source of the given name.
    Probe { cursor: &'a mut K, dbms_name: Option<&'a str> },
    /// The schema that the reader holds.
    Sequential(&'a R),
    /// The schema that the reader holds.
    Concurrent(&'a P),
}

/// Message of the error for a policy under which no buffers can be bound.
pub open spec fn invalid_policy_text() -> Seq<char> {
    "The fetch policy allows no rows in a batch: the maximum number of rows per batch must be greater than zero."@
}

/// The view of an optional name.
pub open spec fn name_text(name: Option<String>) -> Option<Seq<char>> {
    match name {
        Some(name) => Some(name@),
        None => None,
    }
}

/// What is to be done for an answer to the question for the name of the data source.
pub open spec fn step_after_name<C, K>(connection: C, name: Result<String, String>) -> QueryStep<C, K> {
    match name {
        Ok(dbms_name) => QueryStep::Execute { connection, dbms_name },
        Err(message) => QueryStep::Fail {
            outcome: QueryOutcome::Failed { message, connection: Some(connection) },
        },
    }
}

/// Decides how a query goes on once the driver was asked for the name of the data source.
/// With the name the statement is executed. Without it the statement is not executed: the
/// query has failed with the driver's message, and the connection is handed back.
pub fn after_name<C, K>(connection: C, name: Result<String, String>) -> (step: QueryStep<C, K>)
    ensures
        step == step_after_name::<C, K>(connection, name),
{
    match name {
        Ok(dbms_name) => QueryStep::Execute { connection, dbms_name },
        Err(message) => QueryStep::Fail {
            outcome: QueryOutcome::Failed { message, connection: Some(connection) },
        },
    }
}

impl<C, K, R, P> ArrowOdbcReader<C, K, R, P> {
    /// The state without its payload.
    pub open spec fn stage(&self) -> Stage {
        match self.payload {
            Payload::Empty => Stage::Idle,
            Payload::Connection(_) => Stage::Connection,
            Payload::Cursor(_) => Stage::Cursor,
            Payload::Reader(_) => Stage::SequentialReader,
            Payload::ConcurrentReader(_) => Stage::ConcurrentReader,
        }
    }

    /// Number of connections that the instance holds by itself.
    pub open spec fn connections(&self) -> nat {
        if self.payload is Connection { 1 } else { 0 }
    }

    /// Number of unbound cursors that the instance holds.
    pub open spec fn cursors(&self) -> nat {
        if self.payload is Cursor { 1 } else { 0 }
    }

    /// Number of readers that the instance holds, of either kind.
    pub open spec fn readers(&self) -> nat {
        if self.payload is Reader || self.payload is ConcurrentReader { 1 } else { 0 }
    }

    /// Number of payloads that the instance holds.
    pub open spec fn payloads(&self) -> nat {
        self.connections() + self.cursors() + self.readers()
    }

    /// Whether a result set is open, so that the schema has to be asked from the payload.
    pub open spec fn has_columns(&self) -> bool {
        self.stage() == Stage::Cursor || self.stage() == Stage::SequentialReader || self.stage()
            == Stage::ConcurrentReader
    }

    /// The instance with the given payload and the same name.
    pub open spec fn holding(self, payload: Payload<C, K, R, P>) -> Self {
        ArrowOdbcReader { payload, dbms_name: self.dbms_name }
    }

    /// The instance with nothing in it, and the same name.
    pub open spec fn emptied(self) -> Self {
        self.holding(Payload::Empty)
    }

    /// The instance that holds nothing and knows no name.
    pub open spec fn idle() -> Self {
        ArrowOdbcReader { payload: Payload::Empty, dbms_name: None }
    }

    /// The state after the driver answered a query. The name that came with a result set
    /// is kept from then on.
    pub open spec fn after_query(self, outcome: QueryOutcome<C, K>) -> Self {
        match outcome {
            QueryOutcome::NoResultSet => self.emptied(),
            QueryOutcome::ResultSet { cursor, dbms_name } => ArrowOdbcReader {
                payload: Payload::Cursor(cursor),
                dbms_name: Some(dbms_name),
            },
            QueryOutcome::Failed { connection: Some(connection), .. } => self.holding(
                Payload::Connection(connection),
            ),
            QueryOutcome::Failed { connection: None, .. } => self.emptied(),
        }
    }

    /// The state after the driver was asked to bind buffers.
    pub open spec fn after_bind(self, outcome: Result<R, String>) -> Self {
        match outcome {
            Ok(reader) => self.holding(Payload::Reader(reader)),
            Err(_) => self.emptied(),
        }
    }

    /// The state after the driver was asked for the next result set.
    pub open spec fn after_advance(self, outcome: NextResultSet<K>) -> Self {
        match outcome {
            NextResultSet::Present { cursor } => self.holding(Payload::Cursor(cursor)),
            _ => self.emptied(),
        }
    }

    /// The state after the driver was asked to fetch ahead.
    pub open spec fn after_prefetch(self, outcome: Result<P, String>) -> Self {
        match outcome {
            Ok(reader) => self.holding(Payload::ConcurrentReader(reader)),
            Err(_) => self.emptied(),
        }
    }

    /// The policy as it is handed out for binding: with the name that the instance keeps,
    /// if it keeps one.
    pub open spec fn named_policy(self, policy: FetchPolicy) -> FetchPolicyView {
        match self.dbms_name {
            Some(name) => FetchPolicyView { dbms_name: Some(name@), ..policy@ },
            None => policy@,
        }
    }

    /// What `begin_promote_to_reader` hands out in a state, for a policy.
    pub open spec fn bind_step(self, policy: FetchPolicy, step: BindStep<K>) -> bool {
        match self.payload {
            Payload::Cursor(cursor) => if policy@.valid() {
                &&& step matches BindStep::Bind { cursor: bound, policy: named }
                &&& bound == cursor
                &&& named@ == self.named_policy(policy)
            } else {
                &&& step matches BindStep::Rejected { error }
                &&& error.text() == truncated(invalid_policy_text())
                &&& error.wf()
            },
            _ => step is Nothing,
        }
    }

    /// What `begin_more_results` hands out in a state.
    pub open spec fn advance_step(self) -> AdvanceStep<K, R, P> {
        match self.payload {
            Payload::Cursor(cursor) => AdvanceStep::FromCursor(cursor),
            Payload::Reader(reader) => AdvanceStep::FromReader(reader),
            Payload::ConcurrentReader(reader) => AdvanceStep::FromConcurrentReader(reader),
            _ => AdvanceStep::Exhausted,
        }
    }

    /// An instance that holds nothing.
    pub fn empty() -> (reader: Self)
        ensures
            reader == Self::idle(),
    {
        ArrowOdbcReader { payload: Payload::Empty, dbms_name: None }
    }

    /// The state of the instance, without its payload.
    pub fn current_stage(&self) -> (stage: Stage)
        ensures
            stage == self.stage(),
    {
        match &self.payload {
            Payload::Empty => Stage::Idle,
            Payload::Connection(_) => Stage::Connection,
            Payload::Cursor(_) => Stage::Cursor,
            Payload::Reader(_) => Stage::SequentialReader,
            Payload::ConcurrentReader(_) => Stage::ConcurrentReader,
        }
    }

    /// Gives the instance a connection. Whatever it held before is released, and the name
    /// of the data source is forgotten: the new session may lead elsewhere.
    pub fn set_connection(&mut self, connection: C)
        ensures
            *final(self) == Self::idle().holding(Payload::Connection(connection)),
    {
        self.payload = Payload::Connection(connection);
        self.dbms_name = None;
    }

    /// First part of the promotion to a cursor: takes the connection out, so that a
    /// statement can be executed on it. The instance is idle afterwards.
    pub fn take_connection(&mut self) -> (connection: C)
        requires
            old(self).stage() == Stage::Connection,
        ensures
            *final(self) == old(self).emptied(),
            *old(self) == old(self).holding(Payload::Connection(connection)),
    {
        let mut taken = Payload::Empty;
        core::mem::swap(&mut self.payload, &mut taken);
        match taken {
            Payload::Connection(connection) => connection,
            _ => unreached(),
        }
    }

    /// Second part of the promotion to a cursor: settles the state for the driver's answer.
    /// A statement without a result set leaves the instance idle, which is no error. After
    /// a failure the instance holds the connection again if the driver gave it back, and
    /// is idle otherwise.
    pub fn promote_to_cursor(&mut self, outcome: QueryOutcome<C, K>) -> (result: Result<(), ArrowOdbcError>)
        ensures
            *final(self) == old(self).after_query(outcome),
            result is Err <==> outcome is Failed,
            result matches Err(error) ==> error.wf() && error.text() == truncated(
                outcome->Failed_message@,
            ),
    {
        match outcome {
            QueryOutcome::NoResultSet => {
                self.payload = Payload::Empty;
                Ok(())
            },
            QueryOutcome::ResultSet { cursor, dbms_name } => {
                self.payload = Payload::Cursor(cursor);
                self.dbms_name = Some(dbms_name);
                Ok(())
            },
            QueryOutcome::Failed { message, connection } => {
                match connection {
                    Some(connection) => {
                        self.payload = Payload::Connection(connection);
                    },
                    None => {
                        self.payload = Payload::Empty;
                    },
                }
                Err(ArrowOdbcError::new(message.as_str()))
            },
        }
    }

    /// First part of the promotion to a reader: takes the cursor out, so that buffers can
    /// be bound to it under the policy, which is given the name of the data source that the
    /// instance keeps. The instance is idle afterwards. An idle instance has nothing to
    /// bind. Under a policy that is not valid nothing is bound either: the cursor is
    /// released and the error handed out.
    pub fn begin_promote_to_reader(&mut self, policy: FetchPolicy) -> (step: BindStep<K>)
        requires
            old(self).stage() == Stage::Cursor || old(self).stage() == Stage::Idle,
        ensures
            *final(self) == old(self).emptied(),
            old(self).bind_step(policy, step),
    {
        let mut taken = Payload::Empty;
        core::mem::swap(&mut self.payload, &mut taken);
        match taken {
            Payload::Cursor(cursor) => {
                if policy.is_valid() {
                    let policy = match &self.dbms_name {
                        Some(name) => policy.with_dbms_name(name.clone()),
                        None => policy,
                    };
                    BindStep::Bind { cursor, policy }
                } else {
                    let error = ArrowOdbcError::new(
                        "The fetch policy allows no rows in a batch: the maximum number of rows per batch must be greater than zero.",
                    );
                    BindStep::Rejected { error }
                }
            },
            _ => BindStep::Nothing,
        }
    }

    /// Second part of the promotion to a reader: settles the state for the driver's
    /// answer. After a failure the instance is idle.
    pub fn promote_to_reader(&mut self, outcome: Result<R, String>) -> (result: Result<(), ArrowOdbcError>)
        ensures
            *final(self) == old(self).after_bind(outcome),
            result is Err <==> outcome is Err,
            result matches Err(error) ==> error.wf() && error.text() == truncated(outcome->Err_0@),
    {
        match outcome {
            Ok(reader) => {
                self.payload = Payload::Reader(reader);
                Ok(())
            },
            Err(message) => {
                self.payload = Payload::Empty;
                Err(ArrowOdbcError::new(message.as_str()))
            },
        }
    }

    /// First part of the step to the next result set: takes out whatever the instance
    /// holds, which is idle afterwards. A connection on which nothing was executed is
    /// released.
    pub fn begin_more_results(&mut self) -> (step: AdvanceStep<K, R, P>)
        ensures
            *final(self) == old(self).emptied(),
            step == old(self).advance_step(),
    {
        let mut taken = Payload::Empty;
        core::mem::swap(&mut self.payload, &mut taken);
        match taken {
            Payload::Cursor(cursor) => AdvanceStep::FromCursor(cursor),
            Payload::Reader(reader) => AdvanceStep::FromReader(reader),
            Payload::ConcurrentReader(reader) => AdvanceStep::FromConcurrentReader(reader),
            _ => AdvanceStep::Exhausted,
        }
    }

    /// Second part of the step to the next result set: settles the state for the driver's
    /// answer, and says whether there is a further result set. If there is, the instance
    /// holds its cursor, under the name it has kept; otherwise, and after a failure, it is
    /// idle.
    pub fn more_results(&mut self, outcome: NextResultSet<K>) -> (result: Result<bool, ArrowOdbcError>)
        ensures
            *final(self) == old(self).after_advance(outcome),
            result is Err <==> outcome is Failed,
            result matches Ok(more) ==> more == (outcome is Present),
            result matches Err(error) ==> error.wf() && error.text() == truncated(
                outcome->Failed_message@,
            ),
    {
        match outcome {
            NextResultSet::Present { cursor } => {
                self.payload = Payload::Cursor(cursor);
                Ok(true)
            },
            NextResultSet::Absent => {
                self.payload = Payload::Empty;
                Ok(false)
            },
            NextResultSet::Failed { message } => {
                self.payload = Payload::Empty;
                Err(ArrowOdbcError::new(message.as_str()))
            },
        }
    }

    /// First part of the switch to fetching ahead: takes the reader out and leaves the
    /// instance idle. An idle instance and one that fetches ahead already stay as they
    /// are, and nothing is handed out.
    pub fn begin_into_concurrent(&mut self) -> (taken: Option<R>)
        requires
            old(self).stage() != Stage::Cursor,
            old(self).stage() != Stage::Connection,
        ensures
            old(self).stage() == Stage::SequentialReader ==> *final(self) == old(self).emptied() && (
            taken matches Some(reader) && *old(self) == old(self).holding(Payload::Reader(reader))),
            old(self).stage() != Stage::SequentialReader ==> *final(self) == *old(self) && taken is None,
    {
        match &self.payload {
            Payload::Reader(_) => {
                let mut taken = Payload::Empty;
                core::mem::swap(&mut self.payload, &mut taken);
                match taken {
                    Payload::Reader(reader) => Some(reader),
                    _ => unreached(),
                }
            },
            _ => None,
        }
    }

    /// Second part of the switch to fetching ahead: settles the state for the driver's
    /// answer. After a failure the instance is idle.
    pub fn into_concurrent(&mut self, outcome: Result<P, String>) -> (result: Result<(), ArrowOdbcError>)
        ensures
            *final(self) == old(self).after_prefetch(outcome),
            result is Err <==> outcome is Err,
            result matches Err(error) ==> error.wf() && error.text() == truncated(outcome->Err_0@),
    {
        match outcome {
            Ok(reader) => {
                self.payload = Payload::ConcurrentReader(reader);
                Ok(())
            },
            Err(message) => {
                self.payload = Payload::Empty;
                Err(ArrowOdbcError::new(message.as_str()))
            },
        }
    }

    /// Where the next batch is to be fetched from. The instance keeps its state, whatever
    /// the fetch does to the reader.
    pub fn batch_source(&mut self) -> (source: BatchSource<'_, R, P>)
        requires
            old(self).stage() != Stage::Cursor,
            old(self).stage() != Stage::Connection,
        ensures
            old(self).stage() == Stage::Idle ==> source is Finished && *final(self) == *old(self),
            old(self).stage() == Stage::SequentialReader ==> (source matches BatchSource::Sequential(reader)
                && *old(self) == old(self).holding(Payload::Reader(*reader)) && *final(self) == old(
                self,
            ).holding(Payload::Reader(*final(reader)))),
            old(self).stage() == Stage::ConcurrentReader ==> (source matches BatchSource::Concurrent(reader)
                && *old(self) == old(self).holding(Payload::ConcurrentReader(*reader)) && *final(self)
                == old(self).holding(Payload::ConcurrentReader(*final(reader)))),
    {
        match &mut self.payload {
            Payload::Reader(reader) => BatchSource::Sequential(reader),
            Payload::ConcurrentReader(reader) => BatchSource::Concurrent(reader),
            _ => BatchSource::Finished,
        }
    }

    /// Turns what the reader fetched into what the caller receives. At the end of the
    /// result set there is no batch, which is no error. A fetched batch is exported in the
    /// C data layout, with its rows and columns; the export succeeds exactly for the
    /// batches that the layout can describe. A failure of the fetch, or of the export, is
    /// handed on with its message. The state of the instance does not change. An idle
    /// instance has no reader, so nothing can have been fetched for it.
    pub fn next_batch(&self, fetched: Option<Result<FetchedBatch, String>>) -> (result: Result<
        Option<ColumnarBatch>,
        ArrowOdbcError,
    >)
        requires
            self.stage() != Stage::Cursor,
            self.stage() != Stage::Connection,
            self.stage() == Stage::Idle ==> fetched is None,
        ensures
            fetched is None ==> result == Ok::<Option<ColumnarBatch>, ArrowOdbcError>(None),
            fetched matches Some(Err(message)) ==> (result matches Err(error) && error.wf() && error.text()
                == truncated(message@)),
            fetched matches Some(Ok(batch)) ==> (result is Ok <==> batch_exportable(batch)) && (match result {
                Ok(Some(exported)) => exported.exports(batch),
                Ok(None) => false,
                Err(error) => error.wf() && error.text() == truncated(batch_export_failure(batch)),
            }),
    {
        match fetched {
            None => Ok(None),
            Some(Err(message)) => Err(ArrowOdbcError::new(message.as_str())),
            Some(Ok(batch)) => match ColumnarBatch::from_record_batch(batch) {
                Ok(exported) => Ok(Some(exported)),
                Err(error) => Err(error),
            },
        }
    }

    /// Where the schema is to be taken from. The instance keeps its state.
    pub fn schema_source(&mut self) -> (source: SchemaSource<'_, K, R, P>)
        ensures
            !old(self).has_columns() ==> source is NoColumns && *final(self) == *old(self),
            old(self).stage() == Stage::Cursor ==> (source matches SchemaSource::Probe { cursor, dbms_name }
                && (match dbms_name {
                Some(text) => Some(text@),
                None => None,
            }) == name_text(old(self).dbms_name) && *old(self) == old(self).holding(Payload::Cursor(*cursor))
                && *final(self) == old(self).holding(Payload::Cursor(*final(cursor)))),
            old(self).stage() == Stage::SequentialReader ==> (source matches SchemaSource::Sequential(reader)
                && *old(self) == old(self).holding(Payload::Reader(*reader)) && *final(self) == *old(self)),
            old(self).stage() == Stage::ConcurrentReader ==> (source matches SchemaSource::Concurrent(reader)
                && *old(self) == old(self).holding(Payload::ConcurrentReader(*reader)) && *final(self)
                == *old(self)),
    {
        match &mut self.payload {
            Payload::Cursor(cursor) => SchemaSource::Probe {
                cursor,
                dbms_name: match &self.dbms_name {
                    Some(name) => Some(name.as_str()),
                    None => None,
                },
            },
            Payload::Reader(reader) => SchemaSource::Sequential(reader),
            Payload::ConcurrentReader(reader) => SchemaSource::Concurrent(reader),
            _ => SchemaSource::NoColumns,
        }
    }

    /// The schema of the instance in the C data layout, for what its payload described.
    /// Without an open result set nothing is described, and the schema is the live schema
    /// without columns, never an error. A described schema is exported with one column for
    /// each field; the export succeeds exactly for the schemas that the layout can
    /// describe. A failure of the description, or of the export, is handed on with its
    /// message. The state of the instance does not change.
    pub fn schema(&self, described: Option<Result<Schema, String>>) -> (result: Result<
        FFI_ArrowSchema,
        ArrowOdbcError,
    >)
        requires
            described is Some <==> self.has_columns(),
        ensures
            !self.has_columns() ==> (result matches Ok(schema) && schema_columns(schema) == 0
                && !schema_released(schema)),
            described matches Some(Err(message)) ==> (result matches Err(error) && error.wf() && error.text()
                == truncated(message@)),
            described matches Some(Ok(given)) ==> (result is Ok <==> schema_exportable(given)) && (match result {
                Ok(schema) => schema_columns(schema) == schema_fields(given) && !schema_released(schema),
                Err(error) => error.wf() && error.text() == truncated(schema_export_failure(given)),
            }),
    {
        match described {
            None => zero_column_schema(),
            Some(Err(message)) => Err(ArrowOdbcError::new(message.as_str())),
            Some(Ok(schema)) => schema_to_ffi(&schema),
        }
    }
}

/// In every state the instance holds exactly one payload, except when it is idle, where it
/// holds none: never two, and never none in a state that is not idle. The payload is of the
/// kind that the state names. This holds of every value of the type, and so of the instance
/// at every point between two transitions, whatever transitions came before.
pub proof fn lemma_exactly_one_payload<C, K, R, P>(reader: ArrowOdbcReader<C, K, R, P>)
    ensures
        reader.payloads() == if reader.stage() == Stage::Idle { 0nat } else { 1nat },
        reader.connections() == 1 <==> reader.stage() == Stage::Connection,
        reader.cursors() == 1 <==> reader.stage() == Stage::Cursor,
        reader.readers() == 1 <==> (reader.stage() == Stage::SequentialReader || reader.stage()
            == Stage::ConcurrentReader),
{
}

/// A query without a result set leaves the instance idle, and an idle instance needs no
/// payload to give its schema: `schema` then answers with the schema without columns.
pub proof fn lemma_no_result_set_is_idle<C, K, R, P>(reader: ArrowOdbcReader<C, K, R, P>)
    ensures
        reader.after_query(QueryOutcome::NoResultSet).stage() == Stage::Idle,
        !reader.after_query(QueryOutcome::NoResultSet).has_columns(),
{
}

/// After the last result set the instance is idle and holds no payload: what it held was
/// taken out when the step began, and nothing is put back. Asked again, it has nothing to
/// hand out.
pub proof fn lemma_exhausted_is_idle<C, K, R, P>(reader: ArrowOdbcReader<C, K, R, P>)
    ensures
        reader.emptied().after_advance(NextResultSet::Absent).stage() == Stage::Idle,
        reader.emptied().after_advance(NextResultSet::Absent).payloads() == 0,
        reader.emptied().after_advance(NextResultSet::Absent).advance_step() == AdvanceStep::<K, R, P>::Exhausted,
{
}

/// Whether schema, the step to the next result set and release may follow in a state
/// without breaking the contract of any of them: in the states that a failure can leave.
pub open spec fn callable_after_failure(stage: Stage) -> bool {
    stage == Stage::Idle || stage == Stage::Connection
}

/// A transition that fails leaves the instance in a state from which it can be used
/// further: idle, or with its connection where the driver gave it back.
pub proof fn lemma_failure_leaves_callable<C, K, R, P>(
    reader: ArrowOdbcReader<C, K, R, P>,
    message: String,
    connection: Option<C>,
)
    ensures
        callable_after_failure(reader.after_query(QueryOutcome::Failed { message, connection }).stage()),
        reader.after_bind(Err(message)).stage() == Stage::Idle,
        reader.after_advance(NextResultSet::Failed { message }).stage() == Stage::Idle,
        reader.after_prefetch(Err(message)).stage() == Stage::Idle,
{
}

/// The instance is the cache of the name of the data source: a result set of a query
/// brings the name, and no step that follows changes it, so that the cursor of a further
/// result set and every reader are looked at under the same name.
pub proof fn lemma_name_is_kept<C, K, R, P>(
    reader: ArrowOdbcReader<C, K, R, P>,
    cursor: K,
    dbms_name: String,
    bound: Result<R, String>,
    next: NextResultSet<K>,
    ahead: Result<P, String>,
)
    ensures
        reader.after_query(QueryOutcome::ResultSet { cursor, dbms_name }).dbms_name == Some(dbms_name),
        reader.emptied().dbms_name == reader.dbms_name,
        reader.after_bind(bound).dbms_name == reader.dbms_name,
        reader.after_advance(next).dbms_name == reader.dbms_name,
        reader.after_prefetch(ahead).dbms_name == reader.dbms_name,
{
}

} // verus!

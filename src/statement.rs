//! A statement: one native statement handle, allocated from a connection.
use crate::connection::{Connection, ConnectionState};
use crate::error::Error;
use crate::handles::{ConnectionHandle, SqlReturn, StatementHandle};
use vstd::prelude::*;

verus! {

/// What a statement is: its handle, the connection it was allocated from, and
/// the text it was last asked to execute, if any.
pub struct StatementModel {
    pub handle: StatementHandle,
    pub connection: ConnectionHandle,
    pub executed: Option<Seq<u16>>,
}

/// Owns one native statement handle for one execution and its result set.
pub struct Statement {
    handle: StatementHandle,
    connection: ConnectionHandle,
    executed: Option<Vec<u16>>,
}

/// What direct execution reports for each answer of the native layer:
/// `true` where a result set was produced, `false` on the no-data signal.
pub open spec fn exec_direct_result(outcome: SqlReturn) -> Result<bool, Error> {
    match outcome {
        SqlReturn::Success => Ok(true),
        SqlReturn::NoData => Ok(false),
        SqlReturn::Error(e) => Err(Error::ExecutionFailed(e)),
    }
}

impl View for Statement {
    type V = StatementModel;

    closed spec fn view(&self) -> StatementModel {
        StatementModel {
            handle: self.handle,
            connection: self.connection,
            executed: match self.executed {
                Some(v) => Some(v@),
                None => None,
            },
        }
    }
}

impl Statement {
    /// A freshly allocated statement, bound to `connection`, not yet executed.
    pub(crate) fn new(handle: StatementHandle, connection: ConnectionHandle) -> (r: Statement)
        ensures
            r@ == (StatementModel { handle, connection, executed: None }),
    {
        Statement { handle, connection, executed: None }
    }

    /// The native handle this statement owns.
    pub fn handle(&self) -> (r: StatementHandle)
        ensures
            r == self@.handle,
    {
        self.handle
    }

    /// The connection this statement was allocated from.
    pub fn connection(&self) -> (r: ConnectionHandle)
        ensures
            r == self@.connection,
    {
        self.connection
    }

    /// The wide text this statement was last asked to execute, if any.
    pub fn executed_text(&self) -> (r: Option<&Vec<u16>>)
        ensures
            match r {
                Some(v) => self@.executed == Some(v@),
                None => self@.executed is None,
            },
    {
        match &self.executed {
            Some(v) => Some(v),
            None => None,
        }
    }

    /// Submits `query` for direct execution; `outcome` is the native layer's
    /// answer. Returns whether a result set was produced. The statement must be
    /// the one in use on `conn`, the connection it was allocated from, and that
    /// connection must not have begun teardown.
    pub fn exec_direct(&mut self, conn: &Connection, query: &[u16], outcome: SqlReturn) -> (r:
        Result<bool, Error>)
        requires
            conn@.state == ConnectionState::Connected,
            old(self)@.connection == conn@.handle,
            conn@.live.contains(old(self)@.handle),
        ensures
            final(self)@ == (StatementModel { executed: Some(query@), ..old(self)@ }),
            r == exec_direct_result(outcome),
    {
        self.executed = Some(vstd::slice::slice_to_vec(query));
        match outcome {
            SqlReturn::Success => Ok(true),
            SqlReturn::NoData => Ok(false),
            SqlReturn::Error(e) => Err(Error::ExecutionFailed(e)),
        }
    }
}

} // verus!

//! A connection: one native connection handle, the statements it spawns, and
//! its teardown.
use crate::cursor::Cursor;
use crate::encoding::{to_utf16, utf16_encode};
use crate::error::Error;
use crate::handles::{ConnectionHandle, NativeError, SqlReturn, StatementHandle};
use crate::statement::{exec_direct_result, Statement, StatementModel};
use vstd::prelude::*;

verus! {

/// Where a connection is in its life. It only ever moves forward.
#[derive(Clone, Copy, Debug, PartialEq, Eq, Structural)]
pub enum ConnectionState {
    Connected,
    Disconnecting,
    Disconnected,
}

/// What teardown asks of the surrounding program once disconnect has answered.
#[derive(Clone, Copy, Debug, PartialEq, Eq, Structural)]
pub enum TeardownOutcome {
    /// Disconnect succeeded.
    Disconnected,
    /// Disconnect failed while an earlier failure was already unwinding; the
    /// error is dropped so as not to mask the first one.
    Suppressed(NativeError),
    /// Disconnect failed in normal control flow: the program is to stop with a
    /// message that names this error.
    Fatal(NativeError),
}

/// What a connection is: its handle, its state, the statement handles now in
/// use, the handles of statements that have ended and are yet to be freed by
/// the native layer, and how many times teardown has begun.
pub struct ConnectionModel {
    pub handle: ConnectionHandle,
    pub state: ConnectionState,
    pub live: Set<StatementHandle>,
    pub released: Seq<StatementHandle>,
    pub disconnects: nat,
}

/// Owns one native connection handle; the entry point for statement execution.
/// Statements run one at a time, so at most one statement handle is in use.
pub struct Connection {
    handle: ConnectionHandle,
    state: ConnectionState,
    live: Option<StatementHandle>,
    released: Vec<StatementHandle>,
    disconnects: Ghost<nat>,
}

impl View for Connection {
    type V = ConnectionModel;

    closed spec fn view(&self) -> ConnectionModel {
        ConnectionModel {
            handle: self.handle,
            state: self.state,
            live: match self.live {
                Some(h) => set![h],
                None => Set::empty(),
            },
            released: self.released@,
            disconnects: self.disconnects@,
        }
    }
}

/// The model of a successful execution's result: the cursor's statement.
pub open spec fn cursor_result_view(r: Result<Option<Cursor>, Error>) -> Result<
    Option<StatementModel>,
    Error,
> {
    match r {
        Ok(Some(c)) => Ok(Some(c@)),
        Ok(None) => Ok(None),
        Err(e) => Err(e),
    }
}

/// The connection may take the statement handle that the native layer answered
/// with: it is neither in use nor waiting to be freed.
pub open spec fn fresh_allocation(
    conn: ConnectionModel,
    allocation: Result<StatementHandle, NativeError>,
) -> bool {
    allocation matches Ok(h) ==> !conn.live.contains(h) && !conn.released.contains(h)
}

/// What one direct execution of `text` returns, given the native layer's answer
/// to statement allocation and then to execution. A failed allocation ends the
/// call before anything is executed.
pub open spec fn exec_direct_outcome(
    conn: ConnectionModel,
    text: Seq<u16>,
    allocation: Result<StatementHandle, NativeError>,
    execution: SqlReturn,
) -> Result<Option<StatementModel>, Error> {
    match allocation {
        Err(e) => Err(Error::AllocationFailed(e)),
        Ok(h) => match exec_direct_result(execution) {
            Ok(true) => Ok(
                Some(StatementModel { handle: h, connection: conn.handle, executed: Some(text) }),
            ),
            Ok(false) => Ok(None),
            Err(e) => Err(e),
        },
    }
}

/// The connection after one direct execution: the statement of a returned
/// cursor stays in use; one that produced no cursor has ended, and its handle
/// is released.
pub open spec fn exec_direct_after(
    conn: ConnectionModel,
    allocation: Result<StatementHandle, NativeError>,
    execution: SqlReturn,
) -> ConnectionModel {
    match allocation {
        Ok(h) => if execution is Success {
            ConnectionModel { live: conn.live.insert(h), ..conn }
        } else {
            ConnectionModel { released: conn.released.push(h), ..conn }
        },
        Err(_) => conn,
    }
}

impl Connection {
    /// Teardown has begun exactly when the connection is no longer connected;
    /// once it has, no statement is in use; a handle in use is not also waiting
    /// to be freed.
    pub closed spec fn wf(&self) -> bool {
        &&& self.disconnects@ == if self.state == ConnectionState::Connected {
            0nat
        } else {
            1nat
        }
        &&& self.state != ConnectionState::Connected ==> self.live is None
        &&& self.live matches Some(h) ==> !self.released@.contains(h)
    }

    /// Takes ownership of an established native connection handle.
    pub fn new(handle: ConnectionHandle) -> (r: Connection)
        ensures
            r.wf(),
            r@ == (ConnectionModel {
                handle,
                state: ConnectionState::Connected,
                live: Set::empty(),
                released: Seq::empty(),
                disconnects: 0,
            }),
    {
        Connection {
            handle,
            state: ConnectionState::Connected,
            live: None,
            released: Vec::new(),
            disconnects: Ghost(0),
        }
    }

    /// The native connection handle.
    pub fn handle(&self) -> (r: ConnectionHandle)
        ensures
            r == self@.handle,
    {
        self.handle
    }

    /// Where the connection is in its life.
    pub fn state(&self) -> (r: ConnectionState)
        ensures
            r == self@.state,
    {
        self.state
    }

    /// Whether a statement of this connection is in use.
    pub fn has_live_statement(&self) -> (r: bool)
        ensures
            r == !self@.live.is_empty(),
    {
        proof {
            if let Some(h) = self.live {
                assert(self@.live.contains(h));
            }
        }
        self.live.is_some()
    }

    /// Binds a newly allocated statement handle to this connection; `allocation`
    /// is the native layer's answer to the request for one. Statements run one
    /// at a time: none may be in use.
    pub fn allocate_statement(&mut self, allocation: Result<StatementHandle, NativeError>) -> (r:
        Result<Statement, Error>)
        requires
            old(self).wf(),
            old(self)@.state == ConnectionState::Connected,
            old(self)@.live.is_empty(),
            fresh_allocation(old(self)@, allocation),
        ensures
            final(self).wf(),
            match allocation {
                Ok(h) => {
                    &&& r is Ok
                    &&& r->Ok_0@ == (StatementModel {
                        handle: h,
                        connection: old(self)@.handle,
                        executed: None,
                    })
                    &&& final(self)@ == (ConnectionModel { live: set![h], ..old(self)@ })
                },
                Err(e) => {
                    &&& r == Err::<Statement, Error>(Error::AllocationFailed(e))
                    &&& final(self)@ == old(self)@
                },
            },
    {
        proof {
            if let Some(h) = self.live {
                assert(old(self)@.live.contains(h));
            }
        }
        match allocation {
            Ok(h) => {
                self.live = Some(h);
                proof {
                    assert(set![h] =~= Set::<StatementHandle>::empty().insert(h));
                }
                Ok(Statement::new(h, self.handle))
            },
            Err(e) => Err(Error::AllocationFailed(e)),
        }
    }

    /// Ends the statement of this connection that is in use: its handle joins
    /// those to be freed.
    pub fn release_statement(&mut self, statement: Statement)
        requires
            old(self).wf(),
            old(self)@.state == ConnectionState::Connected,
            statement@.connection == old(self)@.handle,
            old(self)@.live.contains(statement@.handle),
        ensures
            final(self).wf(),
            final(self)@ == (ConnectionModel {
                live: old(self)@.live.remove(statement@.handle),
                released: old(self)@.released.push(statement@.handle),
                ..old(self)@
            }),
    {
        let h = statement.handle();
        self.live = None;
        self.released.push(h);
        proof {
            assert(old(self)@.live =~= set![h]);
            assert(set![h].remove(h) =~= Set::<StatementHandle>::empty());
            assert(self.released@ =~= old(self)@.released.push(h));
        }
    }

    /// Hands the released statement handles to the native layer to free.
    pub fn take_released(&mut self) -> (r: Vec<StatementHandle>)
        requires
            old(self).wf(),
        ensures
            final(self).wf(),
            r@ == old(self)@.released,
            final(self)@ == (ConnectionModel { released: Seq::empty(), ..old(self)@ }),
    {
        let mut taken: Vec<StatementHandle> = Vec::new();
        std::mem::swap(&mut self.released, &mut taken);
        taken
    }

    /// Executes `query`, given in the native wide encoding, once and directly.
    /// `allocation` is the native layer's answer to the request for a statement
    /// handle, `execution` its answer to executing `query` on that handle.
    ///
    /// Returns a cursor where a result set was produced, `None` on the no-data
    /// signal. The statement of a cursor stays in use until it is handed to
    /// [`Connection::release_statement`]; one that yields no cursor ends within
    /// the call, and its handle is released.
    pub fn exec_direct_utf16(
        &mut self,
        query: &[u16],
        allocation: Result<StatementHandle, NativeError>,
        execution: SqlReturn,
    ) -> (r: Result<Option<Cursor>, Error>)
        requires
            old(self).wf(),
            old(self)@.state == ConnectionState::Connected,
            old(self)@.live.is_empty(),
            fresh_allocation(old(self)@, allocation),
        ensures
            final(self).wf(),
            final(self)@ == exec_direct_after(old(self)@, allocation, execution),
            cursor_result_view(r) == exec_direct_outcome(old(self)@, query@, allocation, execution),
    {
        let mut stmt = match self.allocate_statement(allocation) {
            Ok(stmt) => stmt,
            Err(e) => return Err(e),
        };
        let ghost h = stmt@.handle;
        proof {
            assert(old(self)@.live.insert(h) =~= set![h]);
            assert(set![h].remove(h) =~= old(self)@.live);
        }
        match stmt.exec_direct(self, query, execution) {
            Ok(true) => Ok(Some(Cursor::new(stmt))),
            Ok(false) => {
                self.release_statement(stmt);
                Ok(None)
            },
            Err(e) => {
                self.release_statement(stmt);
                Err(e)
            },
        }
    }

    /// Executes narrow `query` once and directly: it is encoded as UTF-16 and
    /// executed as by [`Connection::exec_direct_utf16`].
    pub fn exec_direct(
        &mut self,
        query: &str,
        allocation: Result<StatementHandle, NativeError>,
        execution: SqlReturn,
    ) -> (r: Result<Option<Cursor>, Error>)
        requires
            old(self).wf(),
            old(self)@.state == ConnectionState::Connected,
            old(self)@.live.is_empty(),
            fresh_allocation(old(self)@, allocation),
        ensures
            final(self).wf(),
            final(self)@ == exec_direct_after(old(self)@, allocation, execution),
            cursor_result_view(r) == exec_direct_outcome(
                old(self)@,
                utf16_encode(query@),
                allocation,
                execution,
            ),
    {
        let query = to_utf16(query);
        self.exec_direct_utf16(query.as_slice(), allocation, execution)
    }

    /// Begins teardown and returns the handle that the native layer is to
    /// disconnect. Teardown can begin only once, and only when no statement is
    /// in use and every released statement handle has been handed to the
    /// native layer to free.
    pub fn begin_teardown(&mut self) -> (r: ConnectionHandle)
        requires
            old(self).wf(),
            old(self)@.state == ConnectionState::Connected,
            old(self)@.live.is_empty(),
            old(self)@.released.len() == 0,
        ensures
            final(self).wf(),
            r == old(self)@.handle,
            final(self)@.live.is_empty(),
            final(self)@.released.len() == 0,
            final(self)@ == (ConnectionModel {
                state: ConnectionState::Disconnecting,
                disconnects: old(self)@.disconnects + 1,
                ..old(self)@
            }),
    {
        self.state = ConnectionState::Disconnecting;
        self.disconnects = Ghost(self.disconnects@ + 1);
        self.handle
    }

    /// Ends teardown, given the native layer's answer to disconnect and whether
    /// the current thread is already unwinding from an earlier failure.
    pub fn finish_teardown(&mut self, disconnect: Result<(), NativeError>, unwinding: bool) -> (r:
        TeardownOutcome)
        requires
            old(self).wf(),
            old(self)@.state == ConnectionState::Disconnecting,
        ensures
            final(self).wf(),
            final(self)@ == (ConnectionModel {
                state: ConnectionState::Disconnected,
                ..old(self)@
            }),
            disconnect is Ok ==> r == TeardownOutcome::Disconnected,
            unwinding ==> !(r is Fatal),
            unwinding && disconnect is Err ==> r == TeardownOutcome::Suppressed(
                disconnect->Err_0,
            ),
            !unwinding && disconnect is Err ==> r == TeardownOutcome::Fatal(disconnect->Err_0),
    {
        self.state = ConnectionState::Disconnected;
        match disconnect {
            Ok(()) => TeardownOutcome::Disconnected,
            Err(e) => if unwinding {
                TeardownOutcome::Suppressed(e)
            } else {
                TeardownOutcome::Fatal(e)
            },
        }
    }
}


/// Once a statement handle is allocated, execution yields a cursor exactly when
/// the native layer reports a result set, and the no-data signal yields no
/// cursor and no error.
pub proof fn lemma_cursor_exactly_on_rows(
    conn: ConnectionModel,
    text: Seq<u16>,
    handle: StatementHandle,
    execution: SqlReturn,
)
    ensures
        execution is Success <==> exec_direct_outcome(conn, text, Ok(handle), execution) matches Ok(Some(_)),
        execution is NoData ==> exec_direct_outcome(conn, text, Ok(handle), execution) == Ok::<Option<StatementModel>, Error>(None),
{
}

/// No allocated statement handle is left dangling: it is the one in use, owned
/// by the returned cursor, or it is released before the call returns. On an
/// execution error the error comes back unchanged and the handle is released.
pub proof fn lemma_no_dangling_statement(
    conn: ConnectionModel,
    text: Seq<u16>,
    handle: StatementHandle,
    execution: SqlReturn,
)
    requires
        conn.live.is_empty(),
    ensures
        ({
            let r = exec_direct_outcome(conn, text, Ok(handle), execution);
            let after = exec_direct_after(conn, Ok(handle), execution);
            ||| (r matches Ok(Some(c)) && c.handle == handle && after.live == set![handle]
                && after.released == conn.released)
            ||| (!(r matches Ok(Some(_))) && after.live.is_empty() && after.released
                == conn.released.push(handle))
        }),
        execution matches SqlReturn::Error(e) ==> exec_direct_outcome(conn, text, Ok(handle), execution) == Err::<Option<StatementModel>, Error>(Error::ExecutionFailed(e)),
{
    assert(conn.live.insert(handle) =~= set![handle]);
}

/// Teardown begins at most once in the life of a connection; once it has, no
/// statement of the connection is in use. Executing statements, whatever their
/// outcome, neither begins teardown nor counts towards it.
pub proof fn lemma_teardown_at_most_once(
    c: Connection,
    allocation: Result<StatementHandle, NativeError>,
    execution: SqlReturn,
)
    requires
        c.wf(),
    ensures
        c@.disconnects <= 1,
        c@.disconnects == 0 <==> c@.state == ConnectionState::Connected,
        c@.state != ConnectionState::Connected ==> c@.live.is_empty(),
        exec_direct_after(c@, allocation, execution).state == c@.state,
        exec_direct_after(c@, allocation, execution).disconnects == c@.disconnects,
{
}

} // verus!

//! A cursor: an executed statement that produced a result set.
use crate::statement::{Statement, StatementModel};
use vstd::prelude::*;

verus! {

/// The read side of a result set. It owns the statement that produced it.
pub struct Cursor {
    statement: Statement,
}

impl View for Cursor {
    type V = StatementModel;

    closed spec fn view(&self) -> StatementModel {
        self.statement@
    }
}

impl Cursor {
    /// A cursor is only ever made from a statement that was executed.
    #[verifier::type_invariant]
    spec fn inv(&self) -> bool {
        self.statement@.executed is Some
    }

    /// Wraps a statement whose execution produced a result set.
    pub(crate) fn new(statement: Statement) -> (r: Cursor)
        requires
            statement@.executed is Some,
        ensures
            r@ == statement@,
    {
        Cursor { statement }
    }

    /// The statement behind this cursor, for fetching rows.
    pub fn statement(&self) -> (r: &Statement)
        ensures
            r@ == self@,
            r@.executed is Some,
    {
        proof {
            use_type_invariant(self);
        }
        &self.statement
    }

    /// Gives up the cursor and hands back its statement.
    pub fn into_statement(self) -> (r: Statement)
        ensures
            r@ == self@,
            r@.executed is Some,
    {
        proof {
            use_type_invariant(&self);
        }
        self.statement
    }
}

} // verus!

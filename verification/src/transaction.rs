//! Transactions on a data store connection.
//!
//! A transaction is begun by the engine on the caller's request; from then
//! on the library decides, for each way of ending it, whether the engine is
//! to commit it, roll it back, or do nothing because it already ended.

use std::sync::Arc;

use vstd::prelude::*;

use crate::data_store_connection::DataStoreConnection;
use crate::shared::{share, successor, Counter};
use crate::text::{decimal, push_decimal, push_str, string_of_chars};

verus! {

/// The kinds of transaction the engine offers.
#[derive(Debug, Clone, Copy, PartialEq, Eq, Structural)]
pub enum TransactionType {
    Exclusive,
    ReadOnly,
    ReadWrite,
}

/// What the engine is to be told about a transaction.
#[derive(Debug, Clone, Copy, PartialEq, Eq, Structural)]
pub enum TransactionAction {
    /// Nothing: the transaction has already ended.
    Nothing,
    Commit,
    Rollback,
}

/// The ways in which a caller can end a transaction.
#[derive(Debug, Clone, Copy, PartialEq, Eq, Structural)]
pub enum EndCall {
    Commit,
    Rollback,
    /// Commit where the work done in the transaction succeeded, else roll
    /// back.
    UpdateAndCommit(bool),
    /// Roll back whatever the work done in the transaction gave.
    ExecuteAndRollback,
}

/// The word that a transaction's title starts with.
pub open spec fn kind_text(tx_type: TransactionType) -> Seq<char> {
    match tx_type {
        TransactionType::Exclusive => "Exclusive"@,
        TransactionType::ReadOnly => "R/O"@,
        TransactionType::ReadWrite => "R/W"@,
    }
}

/// The title of a transaction, such as
/// `R/W Transaction #3 on connection #1`.
pub open spec fn title_text(tx_type: TransactionType, number: nat, connection_number: nat) -> Seq<
    char,
> {
    kind_text(tx_type) + " Transaction #"@ + decimal(number) + " on connection #"@ + decimal(
        connection_number,
    )
}

/// What the engine is told when a transaction is ended by `call`: nothing
/// where it has already ended.
pub open spec fn end_action(committed: bool, call: EndCall) -> TransactionAction {
    if committed {
        TransactionAction::Nothing
    } else {
        match call {
            EndCall::Commit => TransactionAction::Commit,
            EndCall::Rollback => TransactionAction::Rollback,
            EndCall::UpdateAndCommit(succeeded) => if succeeded {
                TransactionAction::Commit
            } else {
                TransactionAction::Rollback
            },
            EndCall::ExecuteAndRollback => TransactionAction::Rollback,
        }
    }
}

/// What the engine is told when a transaction is dropped: a transaction
/// that has not ended is rolled back.
pub open spec fn drop_action(committed: bool) -> TransactionAction {
    if committed {
        TransactionAction::Nothing
    } else {
        TransactionAction::Rollback
    }
}

/// What the engine is told, in order, when a transaction in the given state
/// is ended by each of `calls` in turn and then dropped.
pub open spec fn actions_of(committed: bool, calls: Seq<EndCall>) -> Seq<TransactionAction>
    decreases calls.len(),
{
    if calls.len() == 0 {
        seq![drop_action(committed)]
    } else {
        seq![end_action(committed, calls[0])] + actions_of(true, calls.skip(1))
    }
}

/// How many of `actions` reach the engine.
pub open spec fn engine_calls(actions: Seq<TransactionAction>) -> nat
    decreases actions.len(),
{
    if actions.len() == 0 {
        0
    } else {
        (if actions[0] == TransactionAction::Nothing {
            0nat
        } else {
            1nat
        }) + engine_calls(actions.skip(1))
    }
}

/// A transaction on a data store connection.
#[derive(Debug)]
pub struct Transaction {
    pub connection: Arc<DataStoreConnection>,
    committed: bool,
    tx_type: TransactionType,
    number: usize,
}

impl Transaction {
    /// Whether the transaction has ended (committed or rolled back).
    pub closed spec fn is_ended(&self) -> bool {
        self.committed
    }

    /// The connection the transaction runs on.
    pub closed spec fn conn(&self) -> Arc<DataStoreConnection> {
        self.connection
    }

    /// The kind of the transaction.
    pub closed spec fn kind(&self) -> TransactionType {
        self.tx_type
    }

    /// The number of the transaction.
    pub closed spec fn numbered(&self) -> usize {
        self.number
    }

    /// The transaction of kind `tx_type` on `connection`, numbered with the
    /// next number of `counter`.
    fn begin(connection: &Arc<DataStoreConnection>, tx_type: TransactionType, counter: &mut Counter) -> (r:
        Transaction)
        ensures
            r.conn() == *connection,
            !r.is_ended(),
            r.kind() == tx_type,
            r.numbered() == old(counter).next,
            final(counter).next == successor(old(counter).next),
    {
        let number = Self::get_number(counter);
        Transaction { connection: share(connection), committed: false, tx_type, number }
    }

    /// A read-only transaction on `connection`.
    pub fn begin_read_only(connection: &Arc<DataStoreConnection>, counter: &mut Counter) -> (r:
        Transaction)
        ensures
            r.conn() == *connection,
            !r.is_ended(),
            r.kind() == TransactionType::ReadOnly,
            r.numbered() == old(counter).next,
            final(counter).next == successor(old(counter).next),
    {
        Self::begin(connection, TransactionType::ReadOnly, counter)
    }

    /// A read-write transaction on `connection`.
    pub fn begin_read_write(connection: &Arc<DataStoreConnection>, counter: &mut Counter) -> (r:
        Transaction)
        ensures
            r.conn() == *connection,
            !r.is_ended(),
            r.kind() == TransactionType::ReadWrite,
            r.numbered() == old(counter).next,
            final(counter).next == successor(old(counter).next),
    {
        Self::begin(connection, TransactionType::ReadWrite, counter)
    }

    /// The next transaction number.
    pub fn get_number(counter: &mut Counter) -> (r: usize)
        ensures
            r == old(counter).next,
            final(counter).next == successor(old(counter).next),
    {
        counter.take()
    }

    /// The title of a transaction of kind `tx_type` numbered `number` on
    /// the connection numbered `connection_number`.
    pub fn get_title_for(tx_type: TransactionType, number: usize, connection_number: usize) -> (r:
        String)
        ensures
            r@ == title_text(tx_type, number as nat, connection_number as nat),
    {
        let mut v: Vec<char> = Vec::new();
        match tx_type {
            TransactionType::Exclusive => push_str(&mut v, "Exclusive"),
            TransactionType::ReadOnly => push_str(&mut v, "R/O"),
            TransactionType::ReadWrite => push_str(&mut v, "R/W"),
        }
        push_str(&mut v, " Transaction #");
        push_decimal(&mut v, number as u64);
        push_str(&mut v, " on connection #");
        push_decimal(&mut v, connection_number as u64);
        assert(v@ =~= title_text(tx_type, number as nat, connection_number as nat));
        string_of_chars(&v)
    }

    /// The title of the transaction.
    pub fn get_title(&self) -> (r: String)
        ensures
            r@ == title_text(self.kind(), self.numbered() as nat, self.conn().number as nat),
    {
        Self::get_title_for(self.tx_type, self.number, self.connection.number)
    }

    /// Ends the transaction by `call`, and says what the engine is to be
    /// told.
    fn end(&mut self, call: EndCall) -> (r: TransactionAction)
        ensures
            r == end_action(old(self).is_ended(), call),
            final(self).is_ended(),
            final(self).conn() == old(self).conn(),
            final(self).kind() == old(self).kind(),
            final(self).numbered() == old(self).numbered(),
    {
        if self.committed {
            TransactionAction::Nothing
        } else {
            self.committed = true;
            match call {
                EndCall::Commit => TransactionAction::Commit,
                EndCall::Rollback => TransactionAction::Rollback,
                EndCall::UpdateAndCommit(succeeded) => if succeeded {
                    TransactionAction::Commit
                } else {
                    TransactionAction::Rollback
                },
                EndCall::ExecuteAndRollback => TransactionAction::Rollback,
            }
        }
    }

    /// Commits the transaction: the engine is to commit it, unless it has
    /// already ended.
    pub fn commit(&mut self) -> (r: TransactionAction)
        ensures
            r == end_action(old(self).is_ended(), EndCall::Commit),
            r == (if old(self).is_ended() {
                TransactionAction::Nothing
            } else {
                TransactionAction::Commit
            }),
            final(self).is_ended(),
            final(self).conn() == old(self).conn(),
            final(self).kind() == old(self).kind(),
            final(self).numbered() == old(self).numbered(),
    {
        self.end(EndCall::Commit)
    }

    /// Rolls the transaction back: the engine is to roll it back, unless it
    /// has already ended.
    pub fn rollback(&mut self) -> (r: TransactionAction)
        ensures
            r == end_action(old(self).is_ended(), EndCall::Rollback),
            r == (if old(self).is_ended() {
                TransactionAction::Nothing
            } else {
                TransactionAction::Rollback
            }),
            final(self).is_ended(),
            final(self).conn() == old(self).conn(),
            final(self).kind() == old(self).kind(),
            final(self).numbered() == old(self).numbered(),
    {
        self.end(EndCall::Rollback)
    }

    /// Ends the transaction after work done in it: committed where the work
    /// succeeded, rolled back where it failed.
    pub fn update_and_commit(&mut self, succeeded: bool) -> (r: TransactionAction)
        ensures
            r == end_action(old(self).is_ended(), EndCall::UpdateAndCommit(succeeded)),
            r == (if old(self).is_ended() {
                TransactionAction::Nothing
            } else if succeeded {
                TransactionAction::Commit
            } else {
                TransactionAction::Rollback
            }),
            final(self).is_ended(),
            final(self).conn() == old(self).conn(),
            final(self).kind() == old(self).kind(),
            final(self).numbered() == old(self).numbered(),
    {
        self.end(EndCall::UpdateAndCommit(succeeded))
    }

    /// Ends the transaction after work done in it by rolling it back,
    /// whatever the work gave.
    pub fn execute_and_rollback(&mut self) -> (r: TransactionAction)
        ensures
            r == end_action(old(self).is_ended(), EndCall::ExecuteAndRollback),
            r == (if old(self).is_ended() {
                TransactionAction::Nothing
            } else {
                TransactionAction::Rollback
            }),
            final(self).is_ended(),
            final(self).conn() == old(self).conn(),
            final(self).kind() == old(self).kind(),
            final(self).numbered() == old(self).numbered(),
    {
        self.end(EndCall::ExecuteAndRollback)
    }

    /// What the engine is to be told when the transaction is dropped: a
    /// transaction that has not ended is rolled back.
    pub fn on_drop(&self) -> (r: TransactionAction)
        ensures
            r == drop_action(self.is_ended()),
    {
        if self.committed {
            TransactionAction::Nothing
        } else {
            TransactionAction::Rollback
        }
    }
}

/// Counting the engine calls of a sequence with one action in front.
proof fn lemma_engine_calls_prepend(a: TransactionAction, rest: Seq<TransactionAction>)
    ensures
        engine_calls(seq![a] + rest) == (if a == TransactionAction::Nothing {
            0nat
        } else {
            1nat
        }) + engine_calls(rest),
{
    assert((seq![a] + rest).skip(1) =~= rest);
}

/// A transaction that has ended leaves the engine alone, whatever further
/// calls end it and at its drop.
proof fn lemma_ended_is_silent(calls: Seq<EndCall>)
    ensures
        engine_calls(actions_of(true, calls)) == 0,
    decreases calls.len(),
{
    if calls.len() == 0 {
        lemma_engine_calls_prepend(drop_action(true), Seq::empty());
        assert(seq![drop_action(true)] + Seq::<TransactionAction>::empty() =~= actions_of(true, calls));
    } else {
        lemma_ended_is_silent(calls.skip(1));
        lemma_engine_calls_prepend(end_action(true, calls[0]), actions_of(true, calls.skip(1)));
    }
}

/// A transaction that was begun reaches the engine exactly once at its end,
/// whatever calls end it and however often: the first of them, or the drop
/// where there is none, commits or rolls it back, and all others do nothing.
pub proof fn law_ended_exactly_once(calls: Seq<EndCall>)
    ensures
        engine_calls(actions_of(false, calls)) == 1,
{
    if calls.len() == 0 {
        lemma_engine_calls_prepend(drop_action(false), Seq::empty());
        assert(seq![drop_action(false)] + Seq::<TransactionAction>::empty() =~= actions_of(false, calls));
    } else {
        lemma_ended_is_silent(calls.skip(1));
        lemma_engine_calls_prepend(end_action(false, calls[0]), actions_of(true, calls.skip(1)));
    }
}

/// A transaction that has not ended is committed only where the caller
/// asked to keep its work (`Commit`, or `UpdateAndCommit` after work that
/// succeeded); every other way of ending it, and its drop, roll it back.
/// Either way the engine is told something.
pub proof fn law_commit_only_when_asked(call: EndCall)
    ensures
        end_action(false, call) == TransactionAction::Commit <==> (call == EndCall::Commit || call
            == EndCall::UpdateAndCommit(true)),
        end_action(false, call) == TransactionAction::Rollback <==> !(call == EndCall::Commit
            || call == EndCall::UpdateAndCommit(true)),
        drop_action(false) == TransactionAction::Rollback,
{
}

/// Once a transaction has ended, every further way of ending it and its
/// drop leave the engine alone.
pub proof fn law_ended_stays_silent(call: EndCall)
    ensures
        end_action(true, call) == TransactionAction::Nothing,
        drop_action(true) == TransactionAction::Nothing,
{
}

} // verus!

//! The transaction manager: the depth counter of a connection and the
//! transitions that `begin`, `commit`, `rollback` and `start_rollback` make.
//!
//! `begin`, `commit` and `rollback` wait for the server. Each is split in two
//! steps around that wait: the first says which statement to execute, the
//! second takes what the execution reported and updates the depth.

use crate::statement::{
    begin_sql, begin_statement, commit_sql, commit_statement, lemma_rollback_sql_fits, rollback_sql,
    rollback_statement,
};
use std::collections::VecDeque;
use vstd::prelude::*;
use vstd::string::{StrSliceExecFns, StringSliceAdditionalSpecFns};
use vstd::utf8::{encode_utf8, is_ascii_chars_encode_utf8};

verus! {

#[verifier::external_type_specification]
#[verifier::external_body]
pub struct ExError(sqlx_core::Error);

/// A statement must stay below this many bytes so that it fits, after the
/// command byte, in a single packet; a longer one would need continuation
/// packets.
pub const MAX_PACKET_PAYLOAD: usize = 0xFF_FFFE;

/// The command byte of a text query.
pub const COM_QUERY: u8 = 0x03;

/// A reply that the stream must read before any other.
#[derive(Clone, Copy, Debug, PartialEq, Eq, Structural)]
pub enum Waiting {
    /// The result of a statement.
    Result,
    /// The rows of a result set.
    Row,
}

/// The outbound side of a connection's packet stream.
pub struct PacketStream {
    /// Replies that are still outstanding, oldest first.
    pub waiting: VecDeque<Waiting>,
    /// The sequence number that the next packet carries.
    pub sequence_id: u8,
    /// Bytes written but not yet sent.
    pub wbuf: Vec<u8>,
}

/// The bytes of a query packet: a three-byte little-endian payload length,
/// the sequence number, the query command and the statement.
pub open spec fn query_packet(sequence_id: u8, sql: Seq<u8>) -> Seq<u8> {
    let len = sql.len() + 1;
    seq![(len % 256) as u8, ((len / 256) % 256) as u8, ((len / 65536) % 256) as u8, sequence_id,
    COM_QUERY] + sql
}

/// The sequence number that follows `id`.
pub open spec fn next_sequence_id(id: u8) -> u8 {
    if id == 255 {
        0
    } else {
        (id + 1) as u8
    }
}

impl PacketStream {
    /// An empty stream with no outstanding reply.
    pub fn new() -> (r: PacketStream)
        ensures
            r.waiting@ == Seq::<Waiting>::empty(),
            r.sequence_id == 0,
            r.wbuf@ == Seq::<u8>::empty(),
    {
        PacketStream { waiting: VecDeque::new(), sequence_id: 0, wbuf: Vec::new() }
    }

    /// Writes `sql` as a query packet without waiting for the reply.
    pub fn write_query(&mut self, sql: &str)
        requires
            sql.spec_bytes().len() < MAX_PACKET_PAYLOAD,
        ensures
            final(self).wbuf@ == old(self).wbuf@ + query_packet(
                old(self).sequence_id,
                sql.spec_bytes(),
            ),
            final(self).sequence_id == next_sequence_id(old(self).sequence_id),
            final(self).waiting@ == old(self).waiting@,
    {
        let mut bytes = sql.as_bytes_vec();
        let len: usize = bytes.len() + 1;
        self.wbuf.push((len % 256) as u8);
        self.wbuf.push(((len / 256) % 256) as u8);
        self.wbuf.push(((len / 65536) % 256) as u8);
        self.wbuf.push(self.sequence_id);
        self.wbuf.push(COM_QUERY);
        self.wbuf.append(&mut bytes);
        self.sequence_id = if self.sequence_id == 255 {
            0
        } else {
            self.sequence_id + 1
        };
        assert(self.wbuf@ =~= old(self).wbuf@ + query_packet(
            old(self).sequence_id,
            sql.spec_bytes(),
        ));
    }
}


/// What a connection holds of its transaction state.
pub struct ConnectionState {
    /// Nesting level: zero outside any transaction, otherwise one real
    /// transaction plus `transaction_depth - 1` savepoints.
    pub transaction_depth: usize,
    /// The packet stream of the connection.
    pub stream: PacketStream,
}

impl ConnectionState {
    /// A connection outside any transaction, with an empty stream.
    pub fn new() -> (r: ConnectionState)
        ensures
            r.transaction_depth == 0,
            r.stream.waiting@ == Seq::<Waiting>::empty(),
            r.stream.sequence_id == 0,
            r.stream.wbuf@ == Seq::<u8>::empty(),
    {
        ConnectionState { transaction_depth: 0, stream: PacketStream::new() }
    }
}

/// A lifecycle operation that completed successfully.
#[derive(Clone, Copy, Debug, PartialEq, Eq, Structural)]
pub enum TransactionOp {
    Begin,
    Commit,
    Rollback,
}

/// The depth after `op` succeeded at depth `depth`: a begin opens a level,
/// a commit or a rollback closes one, and at depth zero closes nothing.
pub open spec fn step(depth: nat, op: TransactionOp) -> nat {
    match op {
        TransactionOp::Begin => depth + 1,
        _ => if depth == 0 {
            0
        } else {
            (depth - 1) as nat
        },
    }
}

/// The depth after the operations `ops` succeeded in turn from depth `depth`.
pub open spec fn run(depth: nat, ops: Seq<TransactionOp>) -> nat
    decreases ops.len(),
{
    if ops.len() == 0 {
        depth
    } else {
        step(run(depth, ops.drop_last()), ops.last())
    }
}

/// Whether every commit and rollback of `ops`, run from `depth`, finds a
/// level to close.
pub open spec fn closes_open_levels(depth: nat, ops: Seq<TransactionOp>) -> bool {
    forall|i: int|
        0 <= i < ops.len() && ops[i] != TransactionOp::Begin ==> #[trigger] run(
            depth,
            ops.take(i),
        ) > 0
}

/// How many of `ops` are `op`.
pub open spec fn count(ops: Seq<TransactionOp>, op: TransactionOp) -> nat
    decreases ops.len(),
{
    if ops.len() == 0 {
        0
    } else {
        count(ops.drop_last(), op) + if ops.last() == op {
            1nat
        } else {
            0nat
        }
    }
}

/// Over a run in which no commit or rollback finds depth zero, the depth
/// reached is the starting depth plus the begins, less the commits and the
/// rollbacks.
pub proof fn lemma_depth_counts_operations(depth: nat, ops: Seq<TransactionOp>)
    requires
        closes_open_levels(depth, ops),
    ensures
        run(depth, ops) == depth + count(ops, TransactionOp::Begin) - count(
            ops,
            TransactionOp::Commit,
        ) - count(ops, TransactionOp::Rollback),
    decreases ops.len(),
{
    if ops.len() > 0 {
        let prefix = ops.drop_last();
        assert forall|i: int|
            0 <= i < prefix.len() && prefix[i] != TransactionOp::Begin implies #[trigger] run(
                depth,
                prefix.take(i),
            ) > 0 by {
            assert(prefix.take(i) =~= ops.take(i));
            assert(ops[i] == prefix[i]);
            assert(run(depth, ops.take(i)) > 0);
        }
        lemma_depth_counts_operations(depth, prefix);
        let last = ops.len() - 1;
        assert(ops.take(last) =~= prefix);
        if ops.last() != TransactionOp::Begin {
            assert(run(depth, ops.take(last)) > 0);
        }
    }
}

/// Why a lifecycle operation failed.
pub enum TransactionError {
    /// A custom statement was given to open a nested level.
    InvalidSavePointStatement,
    /// The begin statement ran but the connection is not in a transaction.
    BeginFailed,
    /// The server or the transport reported an error.
    Execute(sqlx_core::Error),
}

/// The transaction manager of a MySQL connection.
pub struct MySqlTransactionManager;

impl MySqlTransactionManager {
    /// First step of `begin`: the statement to execute, `statement` if given,
    /// else the begin statement for the current depth. A custom statement
    /// cannot open a nested level.
    pub fn begin(conn: &ConnectionState, statement: Option<String>) -> (r: Result<
        String,
        TransactionError,
    >)
        ensures
            statement is Some && conn.transaction_depth > 0 <==> r matches Err(
                TransactionError::InvalidSavePointStatement,
            ),
            r is Ok <==> !(statement is Some && conn.transaction_depth > 0),
            r is Ok ==> r->Ok_0@ == match statement {
                Some(s) => s@,
                None => begin_sql(conn.transaction_depth as nat),
            },
    {
        match statement {
            Some(_) if conn.transaction_depth > 0 => Err(TransactionError::InvalidSavePointStatement),
            Some(s) => Ok(s),
            None => Ok(begin_statement(conn.transaction_depth)),
        }
    }

    /// Second step of `begin`: the depth grows by one only when the statement
    /// ran and the connection reports that it is inside a transaction.
    pub fn complete_begin(
        conn: &mut ConnectionState,
        executed: Result<(), sqlx_core::Error>,
        in_transaction: bool,
    ) -> (r: Result<(), TransactionError>)
        requires
            old(conn).transaction_depth < usize::MAX,
        ensures
            match executed {
                Err(e) => r == Err::<(), TransactionError>(TransactionError::Execute(e)),
                Ok(_) => if in_transaction {
                    r is Ok
                } else {
                    r matches Err(TransactionError::BeginFailed)
                },
            },
            r is Ok ==> final(conn).transaction_depth == step(
                old(conn).transaction_depth as nat,
                TransactionOp::Begin,
            ),
            r is Err ==> final(conn).transaction_depth == old(conn).transaction_depth,
            final(conn).stream == old(conn).stream,
    {
        match executed {
            Err(e) => Err(TransactionError::Execute(e)),
            Ok(()) => {
                if !in_transaction {
                    return Err(TransactionError::BeginFailed);
                }
                conn.transaction_depth = conn.transaction_depth + 1;
                Ok(())
            },
        }
    }

    /// First step of `commit`: the statement to execute, or `None` outside a
    /// transaction, where committing succeeds at once and changes nothing.
    pub fn commit(conn: &ConnectionState) -> (r: Option<String>)
        ensures
            r is None <==> conn.transaction_depth == 0,
            r is Some ==> r->Some_0@ == commit_sql(conn.transaction_depth as nat),
    {
        if conn.transaction_depth > 0 {
            Some(commit_statement(conn.transaction_depth))
        } else {
            None
        }
    }

    /// Second step of `commit`: the depth falls by one when the statement
    /// ran, and stays as it was when it failed.
    pub fn complete_commit(conn: &mut ConnectionState, executed: Result<(), sqlx_core::Error>) -> (r:
        Result<(), sqlx_core::Error>)
        requires
            old(conn).transaction_depth > 0,
        ensures
            r == executed,
            r is Ok ==> final(conn).transaction_depth == step(
                old(conn).transaction_depth as nat,
                TransactionOp::Commit,
            ),
            r is Err ==> final(conn).transaction_depth == old(conn).transaction_depth,
            final(conn).stream == old(conn).stream,
    {
        Self::close_level(conn, executed)
    }

    /// First step of `rollback`: the statement to execute, or `None` outside a
    /// transaction, where rolling back succeeds at once and changes nothing.
    pub fn rollback(conn: &ConnectionState) -> (r: Option<String>)
        ensures
            r is None <==> conn.transaction_depth == 0,
            r is Some ==> r->Some_0@ == rollback_sql(conn.transaction_depth as nat),
    {
        if conn.transaction_depth > 0 {
            Some(rollback_statement(conn.transaction_depth))
        } else {
            None
        }
    }

    /// Second step of `rollback`: the depth falls by one when the statement
    /// ran, and stays as it was when it failed.
    pub fn complete_rollback(conn: &mut ConnectionState, executed: Result<(), sqlx_core::Error>) -> (r:
        Result<(), sqlx_core::Error>)
        requires
            old(conn).transaction_depth > 0,
        ensures
            r == executed,
            r is Ok ==> final(conn).transaction_depth == step(
                old(conn).transaction_depth as nat,
                TransactionOp::Rollback,
            ),
            r is Err ==> final(conn).transaction_depth == old(conn).transaction_depth,
            final(conn).stream == old(conn).stream,
    {
        Self::close_level(conn, executed)
    }

    fn close_level(conn: &mut ConnectionState, executed: Result<(), sqlx_core::Error>) -> (r: Result<
        (),
        sqlx_core::Error,
    >)
        requires
            old(conn).transaction_depth > 0,
        ensures
            r == executed,
            r is Ok ==> final(conn).transaction_depth == old(conn).transaction_depth - 1,
            r is Err ==> final(conn).transaction_depth == old(conn).transaction_depth,
            final(conn).stream == old(conn).stream,
    {
        if executed.is_ok() {
            conn.transaction_depth = conn.transaction_depth - 1;
        }
        executed
    }

    /// Rolls back the innermost level without waiting for the reply, for
    /// callers that cannot suspend. The rollback statement is written to the
    /// stream as a fresh exchange, framed with sequence number zero, and one
    /// outstanding result is recorded so that the next read drains its reply
    /// first. The depth falls by one at once. Outside a transaction nothing
    /// changes.
    pub fn start_rollback(conn: &mut ConnectionState)
        ensures
            old(conn).transaction_depth == 0 ==> final(conn).transaction_depth == 0
                && final(conn).stream.waiting@ == old(conn).stream.waiting@
                && final(conn).stream.sequence_id == old(conn).stream.sequence_id
                && final(conn).stream.wbuf@ == old(conn).stream.wbuf@,
            old(conn).transaction_depth > 0 ==> final(conn).transaction_depth == step(
                old(conn).transaction_depth as nat,
                TransactionOp::Rollback,
            ) && final(conn).stream.waiting@ == old(conn).stream.waiting@.push(Waiting::Result)
                && final(conn).stream.wbuf@ == old(conn).stream.wbuf@ + query_packet(
                0,
                encode_utf8(rollback_sql(old(conn).transaction_depth as nat)),
            ) && final(conn).stream.sequence_id == next_sequence_id(0),
    {
        let depth = conn.transaction_depth;
        if depth > 0 {
            conn.stream.waiting.push_back(Waiting::Result);
            conn.stream.sequence_id = 0;
            let sql = rollback_statement(depth);
            proof {
                lemma_rollback_sql_fits(depth as nat);
                is_ascii_chars_encode_utf8(sql@);
            }
            conn.stream.write_query(sql.as_str());
            conn.transaction_depth = depth - 1;
        }
    }

    /// The current depth.
    pub fn get_transaction_depth(conn: &ConnectionState) -> (r: usize)
        ensures
            r == conn.transaction_depth,
    {
        conn.transaction_depth
    }
}

} // verus!

//! Nested transaction bookkeeping for a MySQL connection: the depth counter,
//! the choice of control statement for each level, and the non-blocking
//! rollback that queues its statement without waiting for the reply.

mod statement;
mod transaction;

pub use statement::{begin_statement, commit_statement, rollback_statement};
pub use transaction::{
    ConnectionState, MySqlTransactionManager, PacketStream, TransactionError, TransactionOp, Waiting,
    COM_QUERY, MAX_PACKET_PAYLOAD,
};

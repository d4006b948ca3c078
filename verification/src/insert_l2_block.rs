//! The order in which the rows of a block are written and deleted.
//!
//! Each plan is carried out in one database transaction, so that a block is
//! in the tables with all its transactions and logs or not at all.
use crate::indexer::Web3Indexer;
use crate::runner::Runner;
use crate::types::{transactions_view, Web3TransactionWithLogs, Web3TransactionWithLogsView};
use vstd::prelude::*;

verus! {

/// One step of writing to the tables.
#[derive(Debug, Clone, Copy, PartialEq, Eq, Structural)]
pub enum DbStep {
    /// Open a database transaction.
    Begin,
    /// Append the row of the block.
    InsertBlock,
    /// Append the row of the transaction at this place among the block's
    /// rows, and keep the id that the table gives it.
    InsertTransaction { index: usize },
    /// Append the row of this log of that transaction, under the id that the
    /// transaction's row was given.
    InsertLog { transaction: usize, index: usize },
    /// Delete the logs of the block.
    DeleteLogs { block_number: u64 },
    /// Delete the transactions of the block.
    DeleteTransactions { block_number: u64 },
    /// Delete the row of the block.
    DeleteBlock { block_number: u64 },
    /// Commit the database transaction.
    Commit,
}

/// The steps that write the `count` logs of the transaction at `transaction`.
pub open spec fn log_steps(transaction: usize, count: nat) -> Seq<DbStep> {
    Seq::new(count, |j: int| DbStep::InsertLog { transaction, index: j as usize })
}

/// The steps that write `rows`: for each row in order, the transaction and
/// then its logs in order.
pub open spec fn transaction_steps(rows: Seq<Web3TransactionWithLogsView>) -> Seq<DbStep>
    decreases rows.len(),
{
    if rows.len() == 0 {
        Seq::<DbStep>::empty()
    } else {
        let index = (rows.len() - 1) as usize;
        transaction_steps(rows.drop_last()) + seq![DbStep::InsertTransaction { index }]
            + log_steps(index, rows.last().logs.len())
    }
}

/// The steps that write a block with the rows `rows` of its transactions: the
/// block first, then the rows, all in one database transaction.
pub open spec fn insert_steps(rows: Seq<Web3TransactionWithLogsView>) -> Seq<DbStep> {
    seq![DbStep::Begin, DbStep::InsertBlock] + transaction_steps(rows) + seq![DbStep::Commit]
}

/// The steps that delete block `block_number`: its logs, then its
/// transactions, then the block, all in one database transaction.
pub open spec fn delete_steps(block_number: u64) -> Seq<DbStep> {
    seq![
        DbStep::Begin,
        DbStep::DeleteLogs { block_number },
        DbStep::DeleteTransactions { block_number },
        DbStep::DeleteBlock { block_number },
        DbStep::Commit,
    ]
}

impl Web3Indexer {
    /// Plans the writing of a block with the rows `rows` of its transactions.
    pub fn insert_l2block(rows: &Vec<Web3TransactionWithLogs>) -> (steps: Vec<DbStep>)
        ensures
            steps@ == insert_steps(transactions_view(rows@)),
    {
        let ghost views = transactions_view(rows@);
        let mut steps: Vec<DbStep> = Vec::new();
        steps.push(DbStep::Begin);
        steps.push(DbStep::InsertBlock);
        let ghost head = steps@;
        assert(head =~= seq![DbStep::Begin, DbStep::InsertBlock]);
        let mut i: usize = 0;
        assert(views.take(0) =~= Seq::<Web3TransactionWithLogsView>::empty());
        assert(steps@ =~= head + transaction_steps(views.take(0)));
        while i < rows.len()
            invariant
                i <= rows@.len(),
                views == transactions_view(rows@),
                steps@ == head + transaction_steps(views.take(i as int)),
            decreases rows.len() - i,
        {
            let ghost before = steps@;
            steps.push(DbStep::InsertTransaction { index: i });
            let count = rows[i].logs.len();
            let mut j: usize = 0;
            assert(steps@ =~= before + seq![DbStep::InsertTransaction { index: i }] + log_steps(
                i,
                0,
            ));
            while j < count
                invariant
                    j <= count,
                    steps@ == before + seq![DbStep::InsertTransaction { index: i }] + log_steps(
                        i,
                        j as nat,
                    ),
                decreases count - j,
            {
                steps.push(DbStep::InsertLog { transaction: i, index: j });
                assert(steps@ =~= before + seq![DbStep::InsertTransaction { index: i }]
                    + log_steps(i, (j + 1) as nat));
                j += 1;
            }
            proof {
                let grown = views.take(i + 1);
                assert(grown.drop_last() =~= views.take(i as int));
                assert(grown.last() == rows@[i as int]@);
                assert(steps@ =~= head + transaction_steps(grown));
            }
            i += 1;
        }
        assert(views.take(rows@.len() as int) =~= views);
        steps.push(DbStep::Commit);
        assert(steps@ =~= insert_steps(views));
        steps
    }
}

impl Runner {
    /// Plans the deletion of block `block_number`.
    pub fn delete_block(block_number: u64) -> (steps: Vec<DbStep>)
        ensures
            steps@ == delete_steps(block_number),
    {
        let mut steps: Vec<DbStep> = Vec::new();
        steps.push(DbStep::Begin);
        steps.push(DbStep::DeleteLogs { block_number });
        steps.push(DbStep::DeleteTransactions { block_number });
        steps.push(DbStep::DeleteBlock { block_number });
        steps.push(DbStep::Commit);
        assert(steps@ =~= delete_steps(block_number));
        steps
    }
}

} // verus!

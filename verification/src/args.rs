//! Configuration of a run.

use vstd::prelude::*;

verus! {

/// Address of the database service where no other is given.
pub const DEFAULT_ENDPOINT: &'static str = "127.0.0.1:4001";

/// Rows per batch where no other number is given.
pub const DEFAULT_BATCH_SIZE: usize = 10;

/// Row target where no other is given.
pub const DEFAULT_MAX_ROWS: usize = 10000;

/// Insertion concurrency where no other is given.
pub const DEFAULT_CONCURRENCY: usize = 4;

/// Field columns per row where no other number is given.
pub const DEFAULT_COLUMN_NUM: usize = 1200;

/// Destination table where no other is given.
pub const DEFAULT_TABLE_NAME: &'static str = "bench";

/// Logical database that every run inserts into.
pub const DATABASE_NAME: &'static str = "public";

/// Configuration of a run.
#[derive(Debug)]
pub struct Args {
    /// Network address of the database service.
    pub endpoint: String,
    /// Rows generated per batch.
    pub batch_size: usize,
    /// Total row count to reach before stopping.
    pub max_rows: usize,
    /// Insertion concurrency. Carried as configuration; a run has at most
    /// one insert in flight whatever it says.
    pub concurrency: usize,
    /// Number of field columns per row.
    pub column_num: usize,
    /// Destination table.
    pub table_name: String,
}

impl Default for Args {
    /// The empty configuration: no endpoint, no table, every number zero.
    fn default() -> (args: Args)
        ensures
            args.endpoint@ == Seq::<char>::empty(),
            args.batch_size == 0,
            args.max_rows == 0,
            args.concurrency == 0,
            args.column_num == 0,
            args.table_name@ == Seq::<char>::empty(),
    {
        Args {
            endpoint: String::new(),
            batch_size: 0,
            max_rows: 0,
            concurrency: 0,
            column_num: 0,
            table_name: String::new(),
        }
    }
}

} // verus!

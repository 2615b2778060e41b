//! Generated rows, by column: vehicle-identifier tags, measurements and
//! microsecond timestamps.

use rand::rngs::ThreadRng;
use rand::Rng;
use std::time::{Duration, SystemTime, SystemTimeError, UNIX_EPOCH};
use vstd::prelude::*;

verus! {

/// A tag column: one vehicle identifier per row.
pub type VinCol = Vec<i32>;

/// A field column: one measurement per row, held as the bit pattern of a
/// 32-bit IEEE-754 number.
pub type FieldCol = Vec<u32>;

/// The rows of one batch, by column: the tags, then the field columns.
pub type Batch = (VinCol, Vec<FieldCol>);

/// Exclusive upper bound of a generated tag value.
pub const VIN_LIMIT: i32 = 200;

/// Number of batches the generator may run ahead of its consumer.
pub const QUEUE_CAPACITY: usize = 1024;

/// The thread-local generator of `rand`, carried through as an opaque value.
#[verifier::external_type_specification]
#[verifier::external_body]
pub struct ExThreadRng(ThreadRng);

/// Whether `vin` is a tag value the generator may produce.
pub open spec fn vin_in_range(vin: i32) -> bool {
    0 <= vin < VIN_LIMIT
}

/// Whether `col` is a tag column of `batch_size` rows, each within range.
pub open spec fn is_vin_col(col: Seq<i32>, batch_size: nat) -> bool {
    &&& col.len() == batch_size
    &&& forall|i: int| 0 <= i < col.len() ==> vin_in_range(#[trigger] col[i])
}

/// Calls `rand::Rng::gen_range` on the half-open range from `low` up to but
/// excluding `high`.
///
/// Trusted: the value drawn lies inside the range that was asked for. Which
/// value it is depends on the generator's state and is left open, and so is
/// the state the generator is left in. The call panics on an empty range,
/// which `requires` leaves out. It also panics where the generator is due to
/// reseed and the operating system's entropy source fails: a failure of the
/// machine, which no `requires` can leave out.
#[verifier::external_body]
fn draw_in_range(rng: &mut ThreadRng, low: i32, high: i32) -> (value: i32)
    requires
        low < high,
    ensures
        low <= value < high,
{
    rng.gen_range(low..high)
}

/// Draws a tag column of `batch_size` rows, one draw from `rng` per row. A
/// column without rows draws nothing and leaves the generator as it was.
pub fn random_vin_col(batch_size: usize, rng: &mut ThreadRng) -> (col: Vec<i32>)
    ensures
        is_vin_col(col@, batch_size as nat),
        batch_size == 0 ==> *final(rng) == *old(rng),
{
    let mut col: Vec<i32> = Vec::new();
    let mut i: usize = 0;
    while i < batch_size
        invariant
            i <= batch_size,
            is_vin_col(col@, i as nat),
            i == 0 ==> *rng == *old(rng),
        decreases batch_size - i,
    {
        let vin = draw_in_range(rng, 0, VIN_LIMIT);
        col.push(vin);
        i += 1;
    }
    col
}

/// Whether `col` holds `rows` values, each one an outcome of `draw`.
pub open spec fn is_field_col<D: Fn() -> u32>(col: Seq<u32>, rows: nat, draw: D) -> bool {
    &&& col.len() == rows
    &&& forall|i: int| 0 <= i < col.len() ==> call_ensures(draw, (), #[trigger] col[i])
}

/// Whether `batch` has `batch_size` rows in its tag column and in each of
/// exactly `column_num` field columns, with every tag within range and every
/// field value an outcome of `draw`.
pub open spec fn is_batch<D: Fn() -> u32>(
    batch: Batch,
    batch_size: nat,
    column_num: nat,
    draw: D,
) -> bool {
    &&& is_vin_col(batch.0@, batch_size)
    &&& batch.1@.len() == column_num
    &&& forall|c: int|
        0 <= c < batch.1@.len() ==> is_field_col((#[trigger] batch.1@[c])@, batch_size, draw)
}

/// Draws a field column of `col` rows, each value one call of `draw`.
///
/// The library holds a measurement as the bit pattern of a 32-bit IEEE-754
/// number and leaves the drawing of one to its caller.
pub fn random_row<D: Fn() -> u32>(col: usize, draw: &D) -> (row: FieldCol)
    requires
        call_requires(*draw, ()),
    ensures
        is_field_col(row@, col as nat, *draw),
{
    let mut row: FieldCol = Vec::new();
    let mut i: usize = 0;
    while i < col
        invariant
            i <= col,
            call_requires(*draw, ()),
            is_field_col(row@, i as nat, *draw),
        decreases col - i,
    {
        let value = draw();
        row.push(value);
        i += 1;
    }
    row
}

/// Generates one batch: a tag column of `batch_size` rows, then `column_num`
/// field columns of `batch_size` rows each, drawn in that order. A batch
/// without rows draws nothing and leaves the generator as it was.
pub fn next_batch<D: Fn() -> u32>(
    batch_size: usize,
    column_num: usize,
    rng: &mut ThreadRng,
    draw: &D,
) -> (batch: Batch)
    requires
        call_requires(*draw, ()),
    ensures
        is_batch(batch, batch_size as nat, column_num as nat, *draw),
        batch_size == 0 ==> *final(rng) == *old(rng),
{
    let vin = random_vin_col(batch_size, rng);
    let mut fields: Vec<FieldCol> = Vec::new();
    let mut c: usize = 0;
    while c < column_num
        invariant
            c <= column_num,
            call_requires(*draw, ()),
            fields@.len() == c,
            forall|k: int|
                0 <= k < fields@.len() ==> is_field_col(
                    (#[trigger] fields@[k])@,
                    batch_size as nat,
                    *draw,
                ),
        decreases column_num - c,
    {
        let row = random_row(batch_size, draw);
        fields.push(row);
        c += 1;
    }
    (vin, fields)
}

/// A reading of the system clock, carried through as an opaque value.
#[verifier::external_type_specification]
#[verifier::external_body]
pub struct ExSystemTime(SystemTime);

/// The error of a clock reading that lies before the reference point.
#[verifier::external_type_specification]
#[verifier::external_body]
pub struct ExSystemTimeError(SystemTimeError);

/// `SystemTime::now`: reads the system clock. Nothing is claimed of the
/// reading.
pub assume_specification[ SystemTime::now ]() -> (now: SystemTime);

/// `Duration::as_micros`: the whole microseconds of a duration. Nothing is
/// claimed of the number beyond its type.
pub assume_specification[ Duration::as_micros ](this: &Duration) -> (micros: u128);

/// Calls `SystemTime::duration_since` with `UNIX_EPOCH` as the earlier time.
///
/// Trusted: nothing is claimed of the result, which is an error where `at`
/// lies before the epoch.
#[verifier::external_body]
fn since_epoch(at: &SystemTime) -> (elapsed: Result<Duration, SystemTimeError>) {
    at.duration_since(UNIX_EPOCH)
}

/// The timestamp column of `rows` rows that starts at `start`: one
/// microsecond more per row.
pub open spec fn ts_col(start: int, rows: nat) -> Seq<i64> {
    Seq::new(rows, |i: int| (start + i) as i64)
}

/// Whether every timestamp of the column from `start` fits 64 signed bits.
pub open spec fn ts_col_fits(start: int, rows: nat) -> bool {
    rows == 0 || (i64::MIN <= start && start + rows - 1 <= i64::MAX)
}

/// Whether `col` holds `rows` timestamps, each exactly one microsecond after
/// the one before it.
pub open spec fn is_ts_col(col: Seq<i64>, rows: nat) -> bool {
    &&& col.len() == rows
    &&& forall|i: int| 0 <= i && i + 1 < col.len() ==> #[trigger] col[i + 1] == col[i] + 1
}

/// The column from `start` is a timestamp column that begins at `start`.
pub proof fn lemma_ts_col_steps(start: int, rows: nat)
    requires
        ts_col_fits(start, rows),
    ensures
        is_ts_col(ts_col(start, rows), rows),
        rows > 0 ==> ts_col(start, rows)[0] == start,
{
}

/// A timestamp column is strictly increasing: a later row lies as many
/// microseconds after an earlier one as there are rows between them.
pub proof fn lemma_ts_col_strictly_increasing(col: Seq<i64>, rows: nat, i: int, j: int)
    requires
        is_ts_col(col, rows),
        0 <= i <= j < rows,
    ensures
        col[j] == col[i] + (j - i),
        i < j ==> col[i] < col[j],
    decreases j - i,
{
    if i < j {
        lemma_ts_col_strictly_increasing(col, rows, i, j - 1);
        assert(col[(j - 1) + 1] == col[j - 1] + 1);
    }
}

/// The timestamp column of `batch_size` rows that starts `start` microseconds
/// after the epoch, or `None` where a timestamp would not fit 64 signed bits.
pub fn ts_micros_from(start: u128, batch_size: usize) -> (col: Option<Vec<i64>>)
    ensures
        col is Some <==> ts_col_fits(start as int, batch_size as nat),
        col matches Some(c) ==> c@ == ts_col(start as int, batch_size as nat),
{
    if batch_size == 0 {
        let empty: Vec<i64> = Vec::new();
        assert(empty@ =~= ts_col(start as int, 0));
        return Some(empty);
    }
    let last: u128 = 0x7fff_ffff_ffff_ffff;
    if start > last || (batch_size - 1) as u128 > last - start {
        return None;
    }
    let first: i64 = start as i64;
    let mut col: Vec<i64> = Vec::new();
    let mut delta: usize = 0;
    while delta < batch_size
        invariant
            delta <= batch_size,
            first == start,
            start + batch_size - 1 <= i64::MAX,
            col@ == ts_col(start as int, delta as nat),
        decreases batch_size - delta,
    {
        col.push(first + delta as i64);
        delta += 1;
        assert(col@ =~= ts_col(start as int, delta as nat));
    }
    Some(col)
}

/// The timestamp column of `batch_size` rows that starts at the current
/// wall-clock time in microseconds since the epoch. `None` where the clock
/// reads a time before the epoch or one whose timestamps would not fit.
pub fn ts_micros_col(batch_size: usize) -> (col: Option<Vec<i64>>)
    ensures
        col matches Some(c) ==> is_ts_col(c@, batch_size as nat) && (batch_size > 0 ==> c@[0]
            >= 0),
{
    let now = SystemTime::now();
    match since_epoch(&now) {
        Ok(elapsed) => {
            let start = elapsed.as_micros();
            proof {
                if ts_col_fits(start as int, batch_size as nat) {
                    lemma_ts_col_steps(start as int, batch_size as nat);
                }
            }
            ts_micros_from(start, batch_size)
        },
        Err(_) => None,
    }
}

} // verus!

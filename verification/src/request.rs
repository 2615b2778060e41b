//! Columnar insert requests assembled from a timestamp column and a batch.

use crate::data_source::{Batch, FieldCol};
use vstd::prelude::*;
use vstd::string::StringExecFns;

verus! {

/// The role a column plays in the destination table.
#[derive(Clone, Copy, Debug, PartialEq, Eq, Structural)]
pub enum SemanticType {
    /// A grouping key.
    Tag,
    /// A measurement.
    Field,
    /// The time index.
    Timestamp,
}

/// The declared type of a column's values.
#[derive(Clone, Copy, Debug, PartialEq, Eq, Structural)]
pub enum ColumnDataType {
    /// Signed 32-bit integers.
    Int32,
    /// 32-bit IEEE-754 numbers.
    Float32,
    /// Microseconds since the epoch.
    TimestampMicrosecond,
}

/// The values of one column, one per row.
#[derive(Debug, PartialEq, Eq)]
pub enum Values {
    /// Microsecond timestamps.
    TimestampMicrosecond(Vec<i64>),
    /// Integers of an `Int32` column.
    Int32(Vec<i32>),
    /// Bit patterns of the 32-bit IEEE-754 numbers of a `Float32` column.
    Float32(Vec<u32>),
}

/// A named, typed column.
#[derive(Debug, PartialEq, Eq)]
pub struct Column {
    pub column_name: String,
    pub semantic_type: SemanticType,
    pub datatype: ColumnDataType,
    pub values: Values,
}

/// One insert into one table.
#[derive(Debug, PartialEq, Eq)]
pub struct InsertRequest {
    pub table_name: String,
    pub columns: Vec<Column>,
    pub row_count: u32,
}

/// Mathematical value of [`Values`].
pub enum ValuesView {
    TimestampMicrosecond(Seq<i64>),
    Int32(Seq<i32>),
    Float32(Seq<u32>),
}

/// Mathematical value of [`Column`].
pub struct ColumnView {
    pub column_name: Seq<char>,
    pub semantic_type: SemanticType,
    pub datatype: ColumnDataType,
    pub values: ValuesView,
}

/// Mathematical value of [`InsertRequest`].
pub struct InsertRequestView {
    pub table_name: Seq<char>,
    pub columns: Seq<ColumnView>,
    pub row_count: nat,
}

impl View for Values {
    type V = ValuesView;

    open spec fn view(&self) -> ValuesView {
        match self {
            Values::TimestampMicrosecond(v) => ValuesView::TimestampMicrosecond(v@),
            Values::Int32(v) => ValuesView::Int32(v@),
            Values::Float32(v) => ValuesView::Float32(v@),
        }
    }
}

impl View for Column {
    type V = ColumnView;

    open spec fn view(&self) -> ColumnView {
        ColumnView {
            column_name: self.column_name@,
            semantic_type: self.semantic_type,
            datatype: self.datatype,
            values: self.values@,
        }
    }
}

/// The columns of a request, each by its view.
pub open spec fn columns_view(columns: Seq<Column>) -> Seq<ColumnView> {
    Seq::new(columns.len(), |i: int| columns[i]@)
}

/// The field columns of a batch, each by its view.
pub open spec fn field_cols_view(cols: Seq<FieldCol>) -> Seq<Seq<u32>> {
    Seq::new(cols.len(), |i: int| cols[i]@)
}

impl View for InsertRequest {
    type V = InsertRequestView;

    open spec fn view(&self) -> InsertRequestView {
        InsertRequestView {
            table_name: self.table_name@,
            columns: columns_view(self.columns@),
            row_count: self.row_count as nat,
        }
    }
}

/// The decimal digit `d`, for `d < 10`.
pub open spec fn digit_char(d: nat) -> char {
    if d == 0 {
        '0'
    } else if d == 1 {
        '1'
    } else if d == 2 {
        '2'
    } else if d == 3 {
        '3'
    } else if d == 4 {
        '4'
    } else if d == 5 {
        '5'
    } else if d == 6 {
        '6'
    } else if d == 7 {
        '7'
    } else if d == 8 {
        '8'
    } else {
        '9'
    }
}

/// `n` in decimal, most significant digit first, without leading zeros.
pub open spec fn decimal(n: nat) -> Seq<char>
    decreases n,
{
    if n < 10 {
        seq![digit_char(n)]
    } else {
        decimal(n / 10).push(digit_char(n % 10))
    }
}

/// Name of the field column at position `idx`: `col_` and the position.
pub open spec fn field_col_name(idx: nat) -> Seq<char> {
    "col_"@ + decimal(idx)
}

/// The time-index column `ts`.
pub open spec fn ts_column(ts: Seq<i64>) -> ColumnView {
    ColumnView {
        column_name: "ts"@,
        semantic_type: SemanticType::Timestamp,
        datatype: ColumnDataType::TimestampMicrosecond,
        values: ValuesView::TimestampMicrosecond(ts),
    }
}

/// The tag column `vin`, of signed 32-bit integers.
pub open spec fn vin_column(vin: Seq<i32>) -> ColumnView {
    ColumnView {
        column_name: "vin"@,
        semantic_type: SemanticType::Tag,
        datatype: ColumnDataType::Int32,
        values: ValuesView::Int32(vin),
    }
}

/// The measurement column at position `idx`.
pub open spec fn field_column(idx: nat, col: Seq<u32>) -> ColumnView {
    ColumnView {
        column_name: field_col_name(idx),
        semantic_type: SemanticType::Field,
        datatype: ColumnDataType::Float32,
        values: ValuesView::Float32(col),
    }
}

/// Timestamps first, tags second, then the field columns in order.
pub open spec fn request_columns(
    ts: Seq<i64>,
    vin: Seq<i32>,
    fields: Seq<Seq<u32>>,
) -> Seq<ColumnView> {
    seq![ts_column(ts), vin_column(vin)] + Seq::new(
        fields.len(),
        |i: int| field_column(i as nat, fields[i]),
    )
}

/// The request for a batch, or `None` for a batch without rows.
pub open spec fn insert_request(
    table_name: Seq<char>,
    ts: Seq<i64>,
    vin: Seq<i32>,
    fields: Seq<Seq<u32>>,
) -> Option<InsertRequestView> {
    if vin.len() == 0 {
        None
    } else {
        Some(
            InsertRequestView {
                table_name,
                columns: request_columns(ts, vin, fields),
                row_count: ts.len(),
            },
        )
    }
}

/// An optional request by its view.
pub open spec fn request_view(req: Option<InsertRequest>) -> Option<InsertRequestView> {
    match req {
        Some(r) => Some(r@),
        None => None,
    }
}

/// A batch with rows gives a request of two columns more than it has field
/// columns, and, where there is one timestamp per row, of as many rows as the
/// tag column holds. A batch without rows gives none.
pub proof fn lemma_insert_request_shape(
    table_name: Seq<char>,
    ts: Seq<i64>,
    vin: Seq<i32>,
    fields: Seq<Seq<u32>>,
)
    ensures
        vin.len() == 0 <==> insert_request(table_name, ts, vin, fields) is None,
        insert_request(table_name, ts, vin, fields) matches Some(req) ==> {
            &&& req.columns.len() == fields.len() + 2
            &&& ts.len() == vin.len() ==> req.row_count == vin.len()
        },
{
}

/// The digit `d` as a string of one character.
fn digit_str(d: usize) -> (s: &'static str)
    requires
        d < 10,
    ensures
        s@ == seq![digit_char(d as nat)],
{
    proof {
        reveal_strlit("0");
        reveal_strlit("1");
        reveal_strlit("2");
        reveal_strlit("3");
        reveal_strlit("4");
        reveal_strlit("5");
        reveal_strlit("6");
        reveal_strlit("7");
        reveal_strlit("8");
        reveal_strlit("9");
    }
    let s = if d == 0 {
        "0"
    } else if d == 1 {
        "1"
    } else if d == 2 {
        "2"
    } else if d == 3 {
        "3"
    } else if d == 4 {
        "4"
    } else if d == 5 {
        "5"
    } else if d == 6 {
        "6"
    } else if d == 7 {
        "7"
    } else if d == 8 {
        "8"
    } else {
        "9"
    };
    assert(s@ =~= seq![digit_char(d as nat)]);
    s
}

/// Appends `n` in decimal to `s`.
fn push_decimal(s: &mut String, n: usize)
    ensures
        final(s)@ == old(s)@ + decimal(n as nat),
    decreases n,
{
    if n >= 10 {
        push_decimal(s, n / 10);
    }
    s.append(digit_str(n % 10));
    assert(s@ =~= old(s)@ + decimal(n as nat));
}

/// Name of the field column at position `idx`.
pub fn field_column_name(idx: usize) -> (name: String)
    ensures
        name@ == field_col_name(idx as nat),
{
    let mut name = "col_".to_owned();
    push_decimal(&mut name, idx);
    name
}

/// Assembles the insert request for one batch: the timestamp column, the tag
/// column, then one measurement column per field column, named by position.
/// A batch whose tag column is empty gives no request. The row count is the
/// number of timestamps, which has to fit the request's 32-bit counter.
pub fn rows_to_insert_request(table_name: &str, ts: Vec<i64>, batch: Batch) -> (req: Option<
    InsertRequest,
>)
    requires
        batch.0@.len() > 0 ==> ts@.len() <= u32::MAX,
    ensures
        request_view(req) == insert_request(
            table_name@,
            ts@,
            batch.0@,
            field_cols_view(batch.1@),
        ),
        req is None <==> batch.0@.len() == 0,
        req matches Some(r) ==> {
            &&& r.columns@.len() == batch.1@.len() + 2
            &&& r.row_count == ts@.len()
            &&& ts@.len() == batch.0@.len() ==> r.row_count == batch.0@.len()
        },
{
    let (vin_col, field_cols) = batch;
    if vin_col.len() == 0 {
        return None;
    }
    let rows = ts.len();
    let ghost ts_view = ts@;
    let ghost vin_view = vin_col@;
    let ghost want = request_columns(ts_view, vin_view, field_cols_view(field_cols@));

    let mut columns: Vec<Column> = Vec::new();
    columns.push(
        Column {
            column_name: "ts".to_owned(),
            semantic_type: SemanticType::Timestamp,
            datatype: ColumnDataType::TimestampMicrosecond,
            values: Values::TimestampMicrosecond(ts),
        },
    );
    columns.push(
        Column {
            column_name: "vin".to_owned(),
            semantic_type: SemanticType::Tag,
            datatype: ColumnDataType::Int32,
            values: Values::Int32(vin_col),
        },
    );
    assert(columns_view(columns@) =~= want.take(2));

    let field_count = field_cols.len();
    let mut idx: usize = 0;
    for col in it: field_cols
        invariant
            it.seq() == field_cols@,
            idx == it.index(),
            field_count == field_cols@.len(),
            want == request_columns(ts_view, vin_view, field_cols_view(field_cols@)),
            columns@.len() == idx + 2,
            columns_view(columns@) == want.take(idx + 2),
    {
        columns.push(
            Column {
                column_name: field_column_name(idx),
                semantic_type: SemanticType::Field,
                datatype: ColumnDataType::Float32,
                values: Values::Float32(col),
            },
        );
        idx += 1;
        assert(columns_view(columns@) =~= want.take(idx + 2));
    }
    assert(want.take(idx + 2) =~= want);

    Some(InsertRequest { table_name: table_name.to_owned(), columns, row_count: rows as u32 })
}

} // verus!

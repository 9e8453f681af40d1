//! Ingestion of delimited text into the table model.
//!
//! The tokenizing of delimited text into typed columns is the work of
//! polars' CSV reader, an external collaborator: the whole input is
//! buffered, parsed once, and converted column by column into the
//! library's own table. Each column becomes numeric when polars inferred
//! a primitive numeric type for it (its cells cast to doubles, carried
//! as bit patterns), and text otherwise (its cells cast to strings,
//! carried as bytes).
//!
//! What the parse yields is a function of the call's arguments alone —
//! the input bytes, the separator, the skipped lines and the header
//! flag — so its outcome and contents are given names (`parsed_ok`,
//! `parsed_height`, and so on) that the reader's contract applies. The
//! assembly of the table from the parsed frame is verified against
//! those names; only the reader calls themselves are trusted, and the
//! table `load_table` returns is pinned, column by column and cell by
//! cell, to the named parse of its inputs.

use crate::errors::PlotError;
use crate::table::{ColumnData, Table};
use polars::prelude::{AnyValue, CsvParseOptions, CsvReadOptions, DataFrame, DataType, SerReader};
use vstd::prelude::*;

verus! {

#[verifier::external_type_specification]
#[verifier::external_body]
pub struct ExDataFrame(DataFrame);

#[verifier::external_type_specification]
#[verifier::external_body]
pub struct ExColumn(polars::prelude::Column);

#[verifier::external_type_specification]
#[verifier::external_body]
pub struct ExPolarsError(polars::prelude::PolarsError);

/// Whether parsing these bytes with this separator, skip count and
/// header flag succeeds.
pub uninterp spec fn parsed_ok(bytes: Seq<u8>, delimiter: u8, skip: usize, has_header: bool) -> bool;

/// Number of rows a successful parse yields.
pub uninterp spec fn parsed_height(
    bytes: Seq<u8>,
    delimiter: u8,
    skip: usize,
    has_header: bool,
) -> nat;

/// Number of columns a successful parse yields.
pub uninterp spec fn parsed_width(
    bytes: Seq<u8>,
    delimiter: u8,
    skip: usize,
    has_header: bool,
) -> nat;

/// Whether polars infers a primitive numeric type for column `i` of a
/// successful parse.
pub uninterp spec fn parsed_col_numeric(
    bytes: Seq<u8>,
    delimiter: u8,
    skip: usize,
    has_header: bool,
    i: int,
) -> bool;

/// The cells of column `i` of a successful parse, read numerically:
/// each cell cast to a double's bit pattern, missing where null.
pub uninterp spec fn parsed_numeric_cells(
    bytes: Seq<u8>,
    delimiter: u8,
    skip: usize,
    has_header: bool,
    i: int,
) -> Seq<Option<u64>>;

/// The cells of column `i` of a successful parse, read as text: each
/// cell cast to a string's bytes, missing where null or uncastable.
pub uninterp spec fn parsed_text_cells(
    bytes: Seq<u8>,
    delimiter: u8,
    skip: usize,
    has_header: bool,
    i: int,
) -> Seq<Option<Seq<u8>>>;

/// Number of rows a parsed frame holds.
pub uninterp spec fn df_height_model(df: DataFrame) -> nat;

/// Number of columns a parsed frame holds.
pub uninterp spec fn df_width_model(df: DataFrame) -> nat;

/// Whether polars inferred a primitive numeric type for column `i` of a
/// frame.
pub uninterp spec fn df_col_is_numeric(df: DataFrame, i: int) -> bool;

/// The numeric reading of column `i` of a frame: each cell cast to a
/// double's bit pattern, missing where null.
pub uninterp spec fn df_numeric_cells_model(df: DataFrame, i: int) -> Seq<Option<u64>>;

/// The text reading of column `i` of a frame: each cell cast to a
/// string's bytes, missing where null or uncastable.
pub uninterp spec fn df_text_cells_model(df: DataFrame, i: int) -> Seq<Option<Seq<u8>>>;

/// Relies on polars' `CsvReadOptions`/`CsvReader`: parses the buffered
/// input with the given separator, skipped lines and header flag, with
/// missing fields null and ragged lines truncated, as one frame. The
/// result depends on those arguments alone, so the frame's shape and
/// contents equal the named parse of the inputs.
#[verifier::external_body]
fn read_csv_df(bytes: Vec<u8>, delimiter: u8, skip: usize, has_header: bool) -> (r: Result<
    DataFrame,
    PlotError,
>)
    ensures
        r is Ok <==> parsed_ok(bytes@, delimiter, skip, has_header),
        r matches Ok(df) ==> {
            &&& df_height_model(df) == parsed_height(bytes@, delimiter, skip, has_header)
            &&& df_width_model(df) == parsed_width(bytes@, delimiter, skip, has_header)
            &&& forall|i: int|
                0 <= i < df_width_model(df) ==> #[trigger] df_col_is_numeric(df, i)
                    == parsed_col_numeric(bytes@, delimiter, skip, has_header, i)
            &&& forall|i: int|
                0 <= i < df_width_model(df) ==> #[trigger] df_numeric_cells_model(df, i)
                    == parsed_numeric_cells(bytes@, delimiter, skip, has_header, i)
            &&& forall|i: int|
                0 <= i < df_width_model(df) ==> #[trigger] df_text_cells_model(df, i)
                    == parsed_text_cells(bytes@, delimiter, skip, has_header, i)
        },
        r matches Err(e) ==> e matches PlotError::Parse(_),
{
    let parse = CsvParseOptions::default().with_separator(delimiter).with_try_parse_dates(
        false,
    ).with_missing_is_null(true).with_truncate_ragged_lines(true);
    CsvReadOptions::default().with_parse_options(parse).with_ignore_errors(true).with_skip_rows(
        skip,
    ).with_has_header(has_header).into_reader_with_file_handle(
        std::io::Cursor::new(bytes),
    ).finish().map_err(|e| PlotError::Parse(format!("{}", e)))
}

/// Relies on `DataFrame::height`, the number of rows.
#[verifier::external_body]
fn df_height(df: &DataFrame) -> (r: usize)
    ensures
        r == df_height_model(*df),
{
    df.height()
}

/// Relies on `DataFrame::width`, the number of columns.
#[verifier::external_body]
fn df_width(df: &DataFrame) -> (r: usize)
    ensures
        r == df_width_model(*df),
{
    df.width()
}

/// Relies on `DataFrame::select_at_idx` and `DataType::is_primitive_numeric`:
/// whether the column at the index holds a primitive numeric type.
#[verifier::external_body]
fn df_column_numeric(df: &DataFrame, i: usize) -> (r: bool)
    requires
        i < df_width_model(*df),
    ensures
        r == df_col_is_numeric(*df, i as int),
{
    df.select_at_idx(i).expect("index is within the width").dtype().is_primitive_numeric()
}

/// Relies on polars casts: a primitive numeric column casts to doubles
/// without error, one cell per row, and every column of a frame has the
/// frame's height (an invariant `DataFrame` states on its fields).
#[verifier::external_body]
fn df_numeric_cells(df: &DataFrame, i: usize) -> (r: Vec<Option<u64>>)
    requires
        i < df_width_model(*df),
        df_col_is_numeric(*df, i as int),
    ensures
        r@.len() == df_height_model(*df),
        r@ == df_numeric_cells_model(*df, i as int),
{
    let s = df.select_at_idx(i).expect("index is within the width").as_materialized_series();
    let cast = s.cast(&DataType::Float64).expect("a primitive numeric column casts to doubles");
    cast.rechunk().iter().map(
        |v|
            match v {
                AnyValue::Float64(x) => Some(x.to_bits()),
                _ => None,
            },
    ).collect()
}

/// Relies on polars casts: a column cast to strings yields one optional
/// string per row, and every column of a frame has the frame's height.
/// A column that cannot cast to strings becomes all-missing.
#[verifier::external_body]
fn df_text_cells(df: &DataFrame, i: usize) -> (r: Vec<Option<Vec<u8>>>)
    requires
        i < df_width_model(*df),
    ensures
        r@.len() == df_height_model(*df),
        r.deep_view() == df_text_cells_model(*df, i as int),
{
    let s = df.select_at_idx(i).expect("index is within the width").as_materialized_series();
    match s.cast(&DataType::String) {
        Ok(cast) => cast.rechunk().iter().map(
            |v|
                match v {
                    AnyValue::String(x) => Some(x.as_bytes().to_vec()),
                    AnyValue::StringOwned(x) => Some(x.as_bytes().to_vec()),
                    _ => None,
                },
        ).collect(),
        Err(_) => (0..s.len()).map(|_| None).collect(),
    }
}

/// Parses buffered delimited text into a table.
///
/// The call succeeds exactly when the parse of these arguments does, and
/// the table it returns is the named parse of them: `height` rows, one
/// table column per parsed column, numeric with the numeric cells where
/// polars inferred a primitive numeric type and text with the text
/// cells otherwise. On success the table is well-formed: every column
/// has exactly `height` rows.
pub fn load_table(bytes: Vec<u8>, delimiter: u8, skip: usize, has_header: bool) -> (r: Result<
    Table,
    PlotError,
>)
    ensures
        r is Ok <==> parsed_ok(bytes@, delimiter, skip, has_header),
        r matches Ok(t) ==> {
            &&& t.wf()
            &&& t.height as nat == parsed_height(bytes@, delimiter, skip, has_header)
            &&& t.columns@.len() == parsed_width(bytes@, delimiter, skip, has_header)
            &&& forall|i: int|
                0 <= i < t.columns@.len() ==> (parsed_col_numeric(
                    bytes@,
                    delimiter,
                    skip,
                    has_header,
                    i,
                ) ==> (#[trigger] t.columns@[i] matches ColumnData::Numeric(v) && v@
                    == parsed_numeric_cells(bytes@, delimiter, skip, has_header, i)))
            &&& forall|i: int|
                0 <= i < t.columns@.len() ==> (!parsed_col_numeric(
                    bytes@,
                    delimiter,
                    skip,
                    has_header,
                    i,
                ) ==> (#[trigger] t.columns@[i] matches ColumnData::Text(v) && v.deep_view()
                    == parsed_text_cells(bytes@, delimiter, skip, has_header, i)))
        },
        r matches Err(e) ==> e matches PlotError::Parse(_),
{
    let ghost b = bytes@;
    let df = match read_csv_df(bytes, delimiter, skip, has_header) {
        Err(e) => {
            return Err(e);
        },
        Ok(df) => df,
    };
    let height = df_height(&df);
    let width = df_width(&df);
    let mut columns: Vec<ColumnData> = Vec::new();
    let mut i: usize = 0;
    while i < width
        invariant
            i <= width,
            width == df_width_model(df),
            height == df_height_model(df),
            parsed_ok(b, delimiter, skip, has_header),
            df_height_model(df) == parsed_height(b, delimiter, skip, has_header),
            df_width_model(df) == parsed_width(b, delimiter, skip, has_header),
            forall|m: int|
                0 <= m < df_width_model(df) ==> #[trigger] df_col_is_numeric(df, m)
                    == parsed_col_numeric(b, delimiter, skip, has_header, m),
            forall|m: int|
                0 <= m < df_width_model(df) ==> #[trigger] df_numeric_cells_model(df, m)
                    == parsed_numeric_cells(b, delimiter, skip, has_header, m),
            forall|m: int|
                0 <= m < df_width_model(df) ==> #[trigger] df_text_cells_model(df, m)
                    == parsed_text_cells(b, delimiter, skip, has_header, m),
            columns@.len() == i,
            forall|m: int|
                0 <= m < i ==> (#[trigger] columns@[m]).spec_len() == height as nat,
            forall|m: int|
                0 <= m < i ==> (parsed_col_numeric(b, delimiter, skip, has_header, m) ==> (
                #[trigger] columns@[m] matches ColumnData::Numeric(v) && v@
                    == parsed_numeric_cells(b, delimiter, skip, has_header, m))),
            forall|m: int|
                0 <= m < i ==> (!parsed_col_numeric(b, delimiter, skip, has_header, m) ==> (
                #[trigger] columns@[m] matches ColumnData::Text(v) && v.deep_view()
                    == parsed_text_cells(b, delimiter, skip, has_header, m))),
        decreases width - i,
    {
        if df_column_numeric(&df, i) {
            columns.push(ColumnData::Numeric(df_numeric_cells(&df, i)));
        } else {
            columns.push(ColumnData::Text(df_text_cells(&df, i)));
        }
        i = i + 1;
    }
    Ok(Table { height, columns })
}

} // verus!

use vstd::prelude::*;

verus! {

/// The characters of `s` in order, with every `,` left out.
pub open spec fn without_commas(s: Seq<char>) -> Seq<char>
    decreases s.len(),
{
    if s.len() == 0 {
        s
    } else if s.last() == ',' {
        without_commas(s.drop_last())
    } else {
        without_commas(s.drop_last()).push(s.last())
    }
}

/// Removes the thousands separators from a numeric cell.
pub fn strip_commas(s: &str) -> (r: String)
    ensures
        r@ == without_commas(s@),
{
    let n = s.unicode_len();
    let mut out = String::new();
    let mut i: usize = 0;
    while i < n
        invariant
            n == s@.len(),
            i <= n,
            out@ == without_commas(s@.subrange(0, i as int)),
        decreases n - i,
    {
        let c = s.get_char(i);
        proof {
            assert(s@.subrange(0, i + 1).drop_last() == s@.subrange(0, i as int));
        }
        if c != ',' {
            out.append(s.substring_char(i, i + 1));
        }
        i = i + 1;
    }
    proof {
        assert(s@.subrange(0, n as int) == s@);
    }
    out
}


/// `c` is one of the digits `0` to `9`.
pub open spec fn is_digit(c: char) -> bool {
    '0' as u32 <= c as u32 <= '9' as u32
}

/// `s` is made of digits and comma separators only, as in `1,234`.
pub open spec fn is_grouped_numeral(s: Seq<char>) -> bool {
    forall|i: int| 0 <= i < s.len() ==> is_digit(#[trigger] s[i]) || s[i] == ','
}

/// A numeral written with thousands separators is read as the plain numeral:
/// in any row, the cell `1,234` and the cell `1234` leave the same cleaned
/// text, and that text is made of digits alone.
pub proof fn lemma_grouped_numeral_reads_as_plain(row: Seq<Seq<char>>, column: int, grouped: Seq<char>)
    requires
        0 <= column < row.len(),
        is_grouped_numeral(grouped),
    ensures
        cell_text(row.update(column, grouped), column) == cell_text(
            row.update(column, without_commas(grouped)),
            column,
        ),
        forall|i: int|
            0 <= i < cell_text(row.update(column, grouped), column).len() ==> is_digit(
                #[trigger] cell_text(row.update(column, grouped), column)[i],
            ),
{
    lemma_without_commas_digits(grouped);
}

/// Removing the commas of a grouped numeral leaves digits only, and removing
/// them again changes nothing.
proof fn lemma_without_commas_digits(s: Seq<char>)
    requires
        is_grouped_numeral(s),
    ensures
        without_commas(without_commas(s)) == without_commas(s),
        forall|i: int| 0 <= i < without_commas(s).len() ==> is_digit(#[trigger] without_commas(s)[i]),
    decreases s.len(),
{
    if s.len() > 0 {
        let rest = s.drop_last();
        assert(is_grouped_numeral(rest)) by {
            assert forall|i: int| 0 <= i < rest.len() implies is_digit(#[trigger] rest[i]) || rest[i] == ',' by {
                assert(rest[i] == s[i]);
            }
        }
        lemma_without_commas_digits(rest);
        if s.last() != ',' {
            let w = without_commas(rest).push(s.last());
            assert(is_digit(s.last())) by {
                assert(is_digit(s[s.len() - 1]) || s[s.len() - 1] == ',');
            }
            assert(w.drop_last() == without_commas(rest));
            assert(w.last() == s.last());
            assert(w.last() != ',') by {
                assert(is_digit(s.last()));
            }
        }
    }
}

/// A row that has no cell at a stream column gives the empty text there,
/// which reads as no number: a missing cell is no failure.
pub proof fn lemma_missing_cell_is_empty(row: Seq<Seq<char>>, column: int)
    requires
        column >= row.len(),
    ensures
        cell_text(row, column) == Seq::<char>::empty(),
{
}

/// Column of the total stream count.
pub const TOTAL_COLUMN: usize = 1;

/// Column of the solo stream count.
pub const SOLO_COLUMN: usize = 3;

/// Column of the lead stream count.
pub const LEAD_COLUMN: usize = 4;

/// Column of the feature stream count.
pub const FEATURE_COLUMN: usize = 5;

/// The text of one data row's stream cells, each without its thousands
/// separators; an absent cell is empty. Reading each text as a number, with
/// 0 for any text that is not one, gives the row's record.
#[derive(Clone, Debug, PartialEq, Eq)]
pub struct StreamCells {
    pub total_streams: String,
    pub solo_streams: String,
    pub feature_streams: String,
    pub lead_streams: String,
}

/// Why a table could not be loaded.
#[derive(Debug)]
pub enum LoadError {
    /// The text is not a well-formed comma-separated table.
    Malformed(csv::Error),
}

#[verifier::external_type_specification]
#[verifier::external_body]
pub struct ExCsvError(csv::Error);

/// The data rows (all rows but the header) of the comma-separated table held
/// in the bytes, each as its sequence of cells, or `None` where the bytes are
/// no such table.
pub uninterp spec fn csv_data_rows(bytes: Seq<u8>) -> Option<Seq<Seq<Seq<char>>>>;

/// The cells of each row, as character sequences.
pub open spec fn rows_view(rows: Seq<Vec<String>>) -> Seq<Seq<Seq<char>>> {
    rows.map_values(|row: Vec<String>| row@.map_values(|cell: String| cell@))
}

/// The cleaned text of cell `column` of a row; empty where the row is shorter.
pub open spec fn cell_text(row: Seq<Seq<char>>, column: int) -> Seq<char> {
    if 0 <= column < row.len() {
        without_commas(row[column])
    } else {
        Seq::empty()
    }
}

/// `c` holds the cleaned stream cells of `row`.
pub open spec fn cells_of_row(c: StreamCells, row: Seq<Seq<char>>) -> bool {
    &&& c.total_streams@ == cell_text(row, TOTAL_COLUMN as int)
    &&& c.solo_streams@ == cell_text(row, SOLO_COLUMN as int)
    &&& c.lead_streams@ == cell_text(row, LEAD_COLUMN as int)
    &&& c.feature_streams@ == cell_text(row, FEATURE_COLUMN as int)
}

/// `cells` holds, in order, the cleaned stream cells of each of `rows`.
pub open spec fn cells_of_rows(cells: Seq<StreamCells>, rows: Seq<Seq<Seq<char>>>) -> bool {
    &&& cells.len() == rows.len()
    &&& forall|i: int| 0 <= i < rows.len() ==> cells_of_row(#[trigger] cells[i], rows[i])
}

/// Relies on csv::Reader::from_reader with its default settings (a header
/// row, `,` between cells, every row as long as the header) and on its
/// `records` iterator, stopped at the first error: the data rows in order,
/// each cell as a string. The outcome depends on the bytes alone.
#[verifier::external_body]
fn read_csv_rows(bytes: &[u8]) -> (r: Result<Vec<Vec<String>>, csv::Error>)
    ensures
        match r {
            Ok(rows) => csv_data_rows(bytes@) == Some(rows_view(rows@)),
            Err(_) => csv_data_rows(bytes@) is None,
        },
{
    let mut reader = csv::Reader::from_reader(bytes);
    reader.records().map(|rec| rec.map(|rec| rec.iter().map(String::from).collect())).collect()
}

/// The cleaned text of cell `column` of `row`: the cell without its commas,
/// or the empty text where the row has no such cell.
pub fn cell(row: &Vec<String>, column: usize) -> (r: String)
    ensures
        r@ == cell_text(row@.map_values(|c: String| c@), column as int),
{
    if column < row.len() {
        strip_commas(row[column].as_str())
    } else {
        String::new()
    }
}

/// The cleaned stream cells of one data row.
pub fn row_cells(row: &Vec<String>) -> (r: StreamCells)
    ensures
        cells_of_row(r, row@.map_values(|c: String| c@)),
{
    StreamCells {
        total_streams: cell(row, TOTAL_COLUMN),
        solo_streams: cell(row, SOLO_COLUMN),
        feature_streams: cell(row, FEATURE_COLUMN),
        lead_streams: cell(row, LEAD_COLUMN),
    }
}

/// The cleaned stream cells of each data row, one entry per row, in order.
pub fn cells_from_rows(rows: &Vec<Vec<String>>) -> (r: Vec<StreamCells>)
    ensures
        cells_of_rows(r@, rows_view(rows@)),
{
    let mut out: Vec<StreamCells> = Vec::new();
    let mut i: usize = 0;
    while i < rows.len()
        invariant
            i <= rows.len(),
            cells_of_rows(out@, rows_view(rows@.subrange(0, i as int))),
        decreases rows.len() - i,
    {
        let c = row_cells(&rows[i]);
        out.push(c);
        i = i + 1;
        proof {
            let done = rows_view(rows@.subrange(0, i as int));
            assert forall|j: int| 0 <= j < done.len() implies cells_of_row(#[trigger] out@[j], done[j]) by {
                if j < i - 1 {
                    assert(done[j] == rows_view(rows@.subrange(0, i - 1))[j]);
                }
            }
        }
    }
    proof {
        assert(rows@.subrange(0, rows.len() as int) == rows@);
    }
    out
}

/// Loads the table held in `bytes`: the cleaned stream cells of each data
/// row, in file order, or `Malformed` where the bytes are no well-formed
/// comma-separated table.
pub fn load_table(bytes: &[u8]) -> (r: Result<Vec<StreamCells>, LoadError>)
    ensures
        match r {
            Ok(cells) => match csv_data_rows(bytes@) {
                Some(rows) => cells_of_rows(cells@, rows),
                None => false,
            },
            Err(_) => csv_data_rows(bytes@) is None,
        },
{
    match read_csv_rows(bytes) {
        Ok(rows) => Ok(cells_from_rows(&rows)),
        Err(e) => Err(LoadError::Malformed(e)),
    }
}

} // verus!

use vstd::prelude::*;

use calamine::Reader;

use crate::record::{
    parse_rows, rows_to_records_spec, Error, RecordModel, RecordParser, ResourceRecord,
};

verus! {

/// The named worksheet's cells as text, row by row, for a workbook given
/// by its raw bytes; nothing when the bytes are no readable workbook or
/// no worksheet has the name.
pub uninterp spec fn xlsx_sheet_cells(bytes: Seq<u8>, sheet: Seq<char>) -> Option<
    Seq<Seq<Seq<char>>>,
>;

/// Relies on calamine's Xlsx reader — `Reader::new` over the raw
/// workbook bytes, `Reader::worksheet_range`, `Range::rows` — and on
/// `Data`'s `Display` impl for the deterministic text of each cell
/// (empty cells display as empty text). The cells depend on the bytes
/// and the worksheet name alone.
#[verifier::external_body]
fn read_sheet_cells(bytes: &Vec<u8>, sheet: &str) -> (r: Result<Vec<Vec<String>>, Error>)
    ensures
        match r {
            Ok(rows) => xlsx_sheet_cells(bytes.deep_view(), sheet@) == Some(rows.deep_view()),
            Err(e) => xlsx_sheet_cells(bytes.deep_view(), sheet@) is None && (e == Error::IoError
                || e == Error::FormatError),
        },
{
    let cursor = std::io::Cursor::new(bytes.as_slice());
    let mut workbook: calamine::Xlsx<_> = match calamine::Xlsx::new(cursor) {
        Ok(wb) => wb,
        Err(_) => {
            return Err(Error::IoError);
        },
    };
    let range = match workbook.worksheet_range(sheet) {
        Ok(rg) => rg,
        Err(_) => {
            return Err(Error::FormatError);
        },
    };
    Ok(range.rows().map(|row| row.iter().map(|c| c.to_string()).collect()).collect())
}

/// Reads records from the named worksheet of a spreadsheet workbook;
/// cells are coerced to text deterministically (their display text);
/// this adapter expects the header spellings `Author` and `Title`.
pub struct XlsxParser {
    rows: Vec<Vec<String>>,
}

impl XlsxParser {
    /// The worksheet's cell grid.
    pub closed spec fn cells(&self) -> Seq<Seq<Seq<char>>> {
        self.rows.deep_view()
    }

    /// A parser over the named worksheet of a workbook given by its raw
    /// bytes; fails when the bytes are no readable workbook or when the
    /// worksheet does not exist.
    pub fn new(bytes: &Vec<u8>, worksheet: &str) -> (r: Result<Self, Error>)
        ensures
            match xlsx_sheet_cells(bytes.deep_view(), worksheet@) {
                Some(cells) => r matches Ok(p) && p.cells() == cells,
                None => r is Err && (r->Err_0 == Error::IoError || r->Err_0
                    == Error::FormatError),
            },
    {
        match read_sheet_cells(bytes, worksheet) {
            Ok(rows) => Ok(XlsxParser { rows }),
            Err(e) => Err(e),
        }
    }
}

impl RecordParser for XlsxParser {
    open spec fn records_model(&self) -> Result<Seq<RecordModel>, Error> {
        rows_to_records_spec(self.cells())
    }

    fn parse(&mut self) -> (r: Result<Vec<ResourceRecord>, Error>) {
        parse_rows(&self.rows)
    }
}

} // verus!

//! Converts CSV sources into the worksheets of a single spreadsheet workbook.
//!
//! Each CSV source becomes one worksheet: the first record is written as a
//! header row of text cells, every following record as a data row whose
//! fields are classified as numbers or text, with empty fields skipped and
//! the spreadsheet format's row and column ceilings enforced.
use rust_xlsxwriter::Worksheet;
use vstd::prelude::*;

pub mod classify;
pub mod colors;
pub mod csv_input;
pub mod diag;
pub mod excel_writer;
pub mod laws;
pub mod model;
pub mod sheet;

verus! {

/// Row ceiling of the spreadsheet format: no cell is written at a row
/// index at or beyond this.
pub const MAX_ROWS: u32 = 1048576;

/// Column ceiling of the spreadsheet format: no cell is written at a
/// column index at or beyond this.
pub const MAX_COLUMNS: u32 = 16384;

/// Why a conversion failed.
#[derive(Clone, Copy, Debug, PartialEq, Eq, Structural)]
pub enum ConvertError {
    /// The sheet name is not one Excel accepts.
    InvalidSheetName,
    /// Some record of the CSV source could not be delimited.
    UnreadableRecord,
    /// A text cell would be over the cell character limit.
    OversizeCell,
}

/// The description of one sheet to produce: the path of its CSV source, the
/// sheet's name and its tab color.
pub struct ExcelSheetInfo {
    pub file_path: String,
    pub name: String,
    pub tab_color: String,
}

impl ExcelSheetInfo {
    /// Packs the three descriptors of one sheet.
    pub fn new(file_path: String, name: String, tab_color: String) -> (r: Self)
        ensures
            r.file_path == file_path,
            r.name == name,
            r.tab_color == tab_color,
    {
        ExcelSheetInfo { file_path, name, tab_color }
    }
}

impl Clone for ExcelSheetInfo {
    /// An exact copy.
    fn clone(&self) -> (r: Self)
        ensures
            r == *self,
    {
        ExcelSheetInfo {
            file_path: self.file_path.clone(),
            name: self.name.clone(),
            tab_color: self.tab_color.clone(),
        }
    }
}

/// Whether a worksheet is the one a source and its descriptor ask for: its
/// cells are the model of the parsed source, its name is the descriptor's,
/// and its tab shows the color the descriptor's text leaves — always the
/// descriptor's own color when, after translating a known color name, it
/// is a plain hexadecimal text.
pub open spec fn sheet_matches(input: (Vec<u8>, ExcelSheetInfo), ws: Worksheet) -> bool {
    let recs = crate::csv_input::csv_parse(input.0@)->Some_0;
    &&& crate::sheet::sheet_cells(ws) == crate::model::sheet_model(recs)
    &&& crate::sheet::sheet_name_of(ws) == input.1.name@
    &&& crate::sheet::sheet_tab_color(ws) == crate::colors::tab_color_outcome(input.1.tab_color@)
    &&& (crate::sheet::plain_hex_color(crate::colors::tab_color_text(input.1.tab_color@))
        ==> crate::sheet::sheet_tab_color(ws) == crate::colors::tab_color_text(input.1.tab_color@))
}

/// Whether descriptor `i` is the first that fails, and fails with the
/// given error.
pub open spec fn first_failure(
    inputs: Seq<(Vec<u8>, ExcelSheetInfo)>,
    i: int,
    e: ConvertError,
) -> bool {
    &&& 0 <= i < inputs.len()
    &&& (forall|j: int|
        0 <= j < i ==> crate::model::convert_ok(#[trigger] inputs[j].0@, inputs[j].1.name@))
    &&& crate::model::error_matches(inputs[i].0@, inputs[i].1.name@, e)
}

/// Transcribes every source into its worksheet, in the given order and
/// stopping at the first failure: one worksheet per descriptor, named,
/// colored and filled as the descriptor and its source ask.
pub fn build_sheets(inputs: &Vec<(Vec<u8>, ExcelSheetInfo)>) -> (r: Result<
    Vec<Worksheet>,
    ConvertError,
>)
    ensures
        r is Ok <==> (forall|i: int|
            0 <= i < inputs@.len() ==> crate::model::convert_ok(
                #[trigger] inputs@[i].0@,
                inputs@[i].1.name@,
            )),
        r matches Ok(sheets) ==> sheets@.len() == inputs@.len() && (forall|i: int|
            0 <= i < inputs@.len() ==> #[trigger] sheet_matches(inputs@[i], sheets@[i])),
        r matches Err(e) ==> exists|i: int| #[trigger] first_failure(inputs@, i, e),
{
    let mut sheets: Vec<Worksheet> = Vec::new();
    let mut i: usize = 0;
    while i < inputs.len()
        invariant
            i <= inputs.len(),
            sheets@.len() == i,
            forall|j: int|
                0 <= j < i ==> crate::model::convert_ok(
                    #[trigger] inputs@[j].0@,
                    inputs@[j].1.name@,
                ),
            forall|j: int| 0 <= j < i ==> #[trigger] sheet_matches(inputs@[j], sheets@[j]),
        decreases inputs.len() - i,
    {
        let info = inputs[i].1.clone();
        let sheet = excel_writer::ExcelSheet::new(info);
        match sheet.write_worksheet(inputs[i].0.as_slice()) {
            Ok(p) => {
                sheets.push(p.0);
            },
            Err(e) => {
                proof {
                    assert(!crate::model::convert_ok(
                        inputs@[i as int].0@,
                        inputs@[i as int].1.name@,
                    ));
                    assert(first_failure(inputs@, i as int, e));
                }
                return Err(e);
            },
        }
        i = i + 1;
    }
    Ok(sheets)
}

} // verus!

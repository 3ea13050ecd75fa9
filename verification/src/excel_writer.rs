//! Transcribing one CSV source into one worksheet: header and data rows,
//! per-field type inference, and the row and column ceilings.
use rust_xlsxwriter::Worksheet;
use vstd::prelude::*;

verus! {

use crate::ConvertError;
use crate::ExcelSheetInfo;
use crate::MAX_COLUMNS;
use crate::MAX_ROWS;
use crate::classify::FieldClass;
use crate::classify::cell_of;
use crate::classify::classify;
use crate::colors::resolve_tab_color;
use crate::colors::tab_color_outcome;
use crate::colors::tab_color_text;
use crate::csv_input::csv_parse;
use crate::csv_input::parse_csv_records;
use crate::diag::emit_importing;
use crate::model::capped_cols;
use crate::model::cells_fit;
use crate::model::convert_ok;
use crate::model::data_count;
use crate::model::data_fits;
use crate::model::error_matches;
use crate::model::field_fits;
use crate::model::header_cells;
use crate::model::header_cells_upto;
use crate::model::header_fits;
use crate::model::header_of;
use crate::model::lemma_header_step;
use crate::model::lemma_record_step;
use crate::model::lemma_union_empty;
use crate::model::lemma_union_insert;
use crate::model::model_upto;
use crate::model::record_cells;
use crate::model::record_cells_upto;
use crate::model::record_fits;
use crate::model::rows_written;
use crate::model::sheet_model;
use crate::model::start_row;
use crate::sheet::sheet_cells;
use crate::sheet::sheet_name_of;
use crate::sheet::plain_hex_color;
use crate::sheet::sheet_name_ok;
use crate::sheet::sheet_tab_color;
use crate::sheet::text_fits;
use crate::sheet::ws_new;
use crate::sheet::ws_set_name;
use crate::sheet::ws_set_tab_color;
use crate::sheet::ws_write_number_field;
use crate::sheet::ws_write_string;
use vstd::map::*;

/// Transcribes one CSV source into one worksheet, as its descriptor asks.
pub struct ExcelSheet {
    pub excel_info: ExcelSheetInfo,
}

impl ExcelSheet {
    /// Takes the descriptor of the sheet to produce.
    pub fn new(excel_info: ExcelSheetInfo) -> (r: Self)
        ensures
            r.excel_info == excel_info,
    {
        ExcelSheet { excel_info }
    }

    /// Whether a counter has reached its ceiling, warning once on the
    /// standard output stream when it has and `verbose` asks for it.
    pub fn counter_exceeds_limit(
        counter: u32,
        counter_max: u32,
        counter_id: &str,
        verbose: bool,
    ) -> (r: bool)
        ensures
            r == (counter >= counter_max),
    {
        if counter >= counter_max {
            if verbose {
                crate::diag::emit_limit_warning(counter_id, counter_max);
            }
            true
        } else {
            false
        }
    }

    /// Classifies one data field and writes its cell, if it produces one:
    /// a number when the field parses as a 64-bit float other than NaN,
    /// nothing when it is empty or parses to NaN, its text otherwise.
    fn write_field(worksheet: &mut Worksheet, row_num: u32, column: usize, field: &str) -> (r:
        Result<(), ConvertError>)
        requires
            row_num < MAX_ROWS,
            column < MAX_COLUMNS as usize,
        ensures
            r is Ok <==> field_fits(field@),
            r is Ok ==> sheet_cells(*final(worksheet)) == (match cell_of(field@) {
                Some(c) => sheet_cells(*old(worksheet)).insert(
                    (row_num as int, column as int),
                    c,
                ),
                None => sheet_cells(*old(worksheet)),
            }),
            r is Err ==> r == Err::<(), ConvertError>(ConvertError::OversizeCell),
            sheet_name_of(*final(worksheet)) == sheet_name_of(*old(worksheet)),
            sheet_tab_color(*final(worksheet)) == sheet_tab_color(*old(worksheet)),
    {
        match classify(field) {
            FieldClass::Empty => Ok(()),
            FieldClass::NanNumber => Ok(()),
            FieldClass::Number => {
                ws_write_number_field(worksheet, row_num, column as u16, field);
                Ok(())
            },
            FieldClass::Text => {
                match ws_write_string(worksheet, row_num, column as u16, field) {
                    Ok(u) => Ok(u),
                    Err(_) => Err(ConvertError::OversizeCell),
                }
            },
        }
    }

    /// Writes the header record as text cells on row 0, stopping with one
    /// warning at the column ceiling; yields the next row index: 1 when the
    /// header record had at least one field, 0 otherwise.
    fn write_csv_headers(worksheet: &mut Worksheet, headers: &Vec<String>) -> (r: Result<
        u32,
        ConvertError,
    >)
        requires
            sheet_cells(*old(worksheet)) == Map::<(int, int), (bool, Seq<char>)>::empty(),
        ensures
            r is Ok <==> header_fits(headers.deep_view()),
            r is Ok ==> sheet_cells(*final(worksheet)) == header_cells(headers.deep_view()),
            r matches Ok(row) ==> row == (if headers@.len() > 0 {
                1u32
            } else {
                0u32
            }),
            r is Err ==> r == Err::<u32, ConvertError>(ConvertError::OversizeCell),
            sheet_name_of(*final(worksheet)) == sheet_name_of(*old(worksheet)),
            sheet_tab_color(*final(worksheet)) == sheet_tab_color(*old(worksheet)),
    {
        let ghost hdr = headers.deep_view();
        proof {
            assert_maps_equal!(header_cells_upto(hdr, 0), Map::empty());
        }
        let mut column: usize = 0;
        while column < headers.len()
            invariant
                column <= headers.len(),
                column <= MAX_COLUMNS as usize,
                hdr == headers.deep_view(),
                hdr.len() == headers@.len(),
                forall|c: int| 0 <= c < column ==> text_fits(#[trigger] hdr[c]),
                sheet_cells(*worksheet) == header_cells_upto(hdr, column as int),
                sheet_name_of(*worksheet) == sheet_name_of(*old(worksheet)),
                sheet_tab_color(*worksheet) == sheet_tab_color(*old(worksheet)),
            ensures
                column as int == capped_cols(hdr.len()),
            decreases headers.len() - column,
        {
            if Self::counter_exceeds_limit(column as u32, MAX_COLUMNS, "columns", true) {
                break ;
            }
            let field = &headers[column];
            proof {
                assert(hdr[column as int] == headers@[column as int]@);
            }
            match ws_write_string(worksheet, 0, column as u16, field.as_str()) {
                Ok(_) => {},
                Err(_) => {
                    proof {
                        assert(0 <= column as int && (column as int) < capped_cols(hdr.len()));
                        assert(!text_fits(hdr[column as int]));
                    }
                    return Err(ConvertError::OversizeCell);
                },
            }
            proof {
                lemma_header_step(hdr, column as int);
            }
            column = column + 1;
        }
        proof {
            assert(column as int == capped_cols(hdr.len()));
            assert(header_cells_upto(hdr, capped_cols(hdr.len())) == header_cells(hdr));
        }
        if headers.len() > 0 {
            Ok(1)
        } else {
            Ok(0)
        }
    }

    /// Writes every data record below the header, stopping with one warning
    /// at the row ceiling and dropping each record's fields beyond the
    /// column ceiling; empty fields produce no cell.
    fn write_csv_data(worksheet: &mut Worksheet, records: &Vec<Vec<String>>, row_num: u32) -> (r:
        Result<u32, ConvertError>)
        requires
            records.deep_view().len() > 0,
            row_num as int == start_row(records.deep_view()),
            sheet_cells(*old(worksheet)) == header_cells(header_of(records.deep_view())),
        ensures
            r is Ok <==> data_fits(records.deep_view()),
            r is Ok ==> sheet_cells(*final(worksheet)) == sheet_model(records.deep_view()),
            r matches Ok(n) ==> n as int == rows_written(records.deep_view()),
            r is Err ==> r == Err::<u32, ConvertError>(ConvertError::OversizeCell),
            sheet_name_of(*final(worksheet)) == sheet_name_of(*old(worksheet)),
            sheet_tab_color(*final(worksheet)) == sheet_tab_color(*old(worksheet)),
    {
        let ghost recs = records.deep_view();
        let mut row_num = row_num;
        let mut i: usize = 1;
        proof {
            assert(sheet_cells(*worksheet) == model_upto(recs, 0));
        }
        while i < records.len()
            invariant
                1 <= i <= records.len(),
                recs == records.deep_view(),
                recs.len() == records@.len(),
                row_num as int == start_row(recs) + i - 1,
                row_num <= MAX_ROWS,
                sheet_cells(*worksheet) == model_upto(recs, i as int - 1),
                forall|j: int| 1 <= j < i ==> record_fits(#[trigger] recs[j]),
                sheet_name_of(*worksheet) == sheet_name_of(*old(worksheet)),
                sheet_tab_color(*worksheet) == sheet_tab_color(*old(worksheet)),
            decreases records.len() - i,
        {
            if Self::counter_exceeds_limit(row_num, MAX_ROWS, "rows", true) {
                proof {
                    assert(data_count(recs) == i - 1);
                }
                return Ok(row_num);
            }
            let record = &records[i];
            let ghost rec = recs[i as int];
            proof {
                assert(rec == records@[i as int].deep_view());
                lemma_union_empty(model_upto(recs, i as int - 1));
                assert_maps_equal!(record_cells_upto(rec, row_num as int, 0), Map::empty());
            }
            let mut column: usize = 0;
            while column < record.len()
                invariant
                    1 <= i < recs.len(),
                    column <= record.len(),
                    column <= MAX_COLUMNS as usize,
                    recs == records.deep_view(),
                    rec == recs[i as int],
                    rec == record.deep_view(),
                    rec.len() == record@.len(),
                    row_num < MAX_ROWS,
                    row_num as int == start_row(recs) + i - 1,
                    forall|c: int| 0 <= c < column ==> field_fits(#[trigger] rec[c]),
                    sheet_cells(*worksheet) == model_upto(recs, i as int - 1).union_prefer_right(
                        record_cells_upto(rec, row_num as int, column as int),
                    ),
                    sheet_name_of(*worksheet) == sheet_name_of(*old(worksheet)),
                    sheet_tab_color(*worksheet) == sheet_tab_color(*old(worksheet)),
                ensures
                    column as int == capped_cols(rec.len()),
                decreases record.len() - column,
            {
                if Self::counter_exceeds_limit(column as u32, MAX_COLUMNS, "columns", false) {
                    break ;
                }
                let field = &record[column];
                proof {
                    assert(rec[column as int] == record@[column as int]@);
                }
                if !field.as_str().is_empty() {
                    match Self::write_field(worksheet, row_num, column, field.as_str()) {
                        Ok(_) => {},
                        Err(_) => {
                            proof {
                                assert(0 <= column as int && (column as int) < capped_cols(rec.len()));
                                assert(!record_fits(rec));
                                assert(i as int <= data_count(recs));
                            }
                            return Err(ConvertError::OversizeCell);
                        },
                    }
                }
                proof {
                    lemma_record_step(rec, row_num as int, column as int);
                    match cell_of(rec[column as int]) {
                        Some(cell) => {
                            lemma_union_insert(
                                model_upto(recs, i as int - 1),
                                record_cells_upto(rec, row_num as int, column as int),
                                (row_num as int, column as int),
                                cell,
                            );
                        },
                        None => {},
                    }
                }
                column = column + 1;
            }
            proof {
                assert(column as int == capped_cols(rec.len()));
                assert(record_cells_upto(rec, row_num as int, column as int) == record_cells(
                    rec,
                    row_num as int,
                ));
                assert(model_upto(recs, i as int) == model_upto(recs, i as int - 1)
                    .union_prefer_right(record_cells(recs[i as int], start_row(recs) + i - 1)));
            }
            row_num = row_num + 1;
            i = i + 1;
        }
        proof {
            assert(data_count(recs) == i - 1);
        }
        Ok(row_num)
    }

    /// Transcribes one CSV source into a fresh worksheet and yields it with
    /// the count of rows written: sets the sheet's name and tab color (a
    /// known color name translated to its hexadecimal text), writes the
    /// header row and every data row under the row and column ceilings, and
    /// classifies each data field as a number or as text. Fails exactly
    /// when the name is not one Excel accepts, when some record cannot be
    /// delimited, or when a text cell would be over the cell character
    /// limit.
    pub fn write_worksheet(&self, source: &[u8]) -> (r: Result<(Worksheet, u32), ConvertError>)
        ensures
            r is Ok <==> convert_ok(source@, self.excel_info.name@),
            r matches Ok(p) ==> ({
                let recs = csv_parse(source@)->Some_0;
                &&& sheet_cells(p.0) == sheet_model(recs)
                &&& sheet_name_of(p.0) == self.excel_info.name@
                &&& sheet_tab_color(p.0) == tab_color_outcome(self.excel_info.tab_color@)
                &&& (plain_hex_color(tab_color_text(self.excel_info.tab_color@))
                    ==> sheet_tab_color(p.0) == tab_color_text(self.excel_info.tab_color@))
                &&& p.1 as int == rows_written(recs)
            }),
            r matches Err(e) ==> error_matches(source@, self.excel_info.name@, e),
    {
        let mut worksheet = ws_new();
        emit_importing(self.excel_info.name.as_str());
        match ws_set_name(&mut worksheet, self.excel_info.name.as_str()) {
            Ok(_) => {},
            Err(_) => {
                return Err(ConvertError::InvalidSheetName);
            },
        }
        let tab_color = resolve_tab_color(self.excel_info.tab_color.as_str());
        ws_set_tab_color(&mut worksheet, tab_color);
        let records = match parse_csv_records(source) {
            Some(v) => v,
            None => {
                return Err(ConvertError::UnreadableRecord);
            },
        };
        let ghost recs = records.deep_view();
        if records.len() == 0 {
            proof {
                assert_maps_equal!(header_cells(header_of(recs)), Map::empty());
                assert(sheet_model(recs) == header_cells(header_of(recs)));
            }
            return Ok((worksheet, 0));
        }
        let row_num = match Self::write_csv_headers(&mut worksheet, &records[0]) {
            Ok(n) => n,
            Err(e) => {
                proof {
                    assert(header_of(recs) == records@[0].deep_view());
                }
                return Err(e);
            },
        };
        proof {
            assert(header_of(recs) == records@[0].deep_view());
            assert(row_num as int == start_row(recs));
        }
        match Self::write_csv_data(&mut worksheet, &records, row_num) {
            Ok(rows) => Ok((worksheet, rows)),
            Err(e) => Err(e),
        }
    }
}

} // verus!

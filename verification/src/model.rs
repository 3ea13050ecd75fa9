//! The mathematical model of one transcribed worksheet: which cell every
//! CSV field produces, and when the whole transcription succeeds.
use vstd::prelude::*;

verus! {

use vstd::map::*;

use crate::MAX_COLUMNS;
use crate::MAX_ROWS;
use crate::classify::cell_of;
use crate::csv_input::csv_parse;
use crate::sheet::sheet_name_ok;
use crate::sheet::text_fits;

/// How many columns of a record are considered: all of them, up to the
/// column ceiling.
pub open spec fn capped_cols(len: nat) -> int {
    if len <= MAX_COLUMNS as nat {
        len as int
    } else {
        MAX_COLUMNS as int
    }
}

/// The cells of the first `c` considered header fields: a text cell on row
/// 0 for every nonempty one.
pub open spec fn header_cells_upto(hdr: Seq<Seq<char>>, c: int) -> Map<
    (int, int),
    (bool, Seq<char>),
> {
    Map::new(
        |k: (int, int)| k.0 == 0 && 0 <= k.1 < c && hdr[k.1].len() > 0,
        |k: (int, int)| (false, hdr[k.1]),
    )
}

/// The cells of the header record.
pub open spec fn header_cells(hdr: Seq<Seq<char>>) -> Map<(int, int), (bool, Seq<char>)> {
    header_cells_upto(hdr, capped_cols(hdr.len()))
}

/// The cells of the first `c` considered fields of one data record placed
/// on the given row: one cell for every field that classifies as a number
/// or as text.
pub open spec fn record_cells_upto(rec: Seq<Seq<char>>, row: int, c: int) -> Map<
    (int, int),
    (bool, Seq<char>),
> {
    Map::new(
        |k: (int, int)| k.0 == row && 0 <= k.1 < c && cell_of(rec[k.1]) is Some,
        |k: (int, int)| cell_of(rec[k.1])->Some_0,
    )
}

/// The cells of one data record placed on the given row.
pub open spec fn record_cells(rec: Seq<Seq<char>>, row: int) -> Map<(int, int), (bool, Seq<char>)> {
    record_cells_upto(rec, row, capped_cols(rec.len()))
}

/// The header record of a parsed source, empty when there is none.
pub open spec fn header_of(recs: Seq<Seq<Seq<char>>>) -> Seq<Seq<char>> {
    if recs.len() == 0 {
        Seq::empty()
    } else {
        recs[0]
    }
}

/// The first row index a data record may take: 1 when a header record with
/// at least one field was present, 0 otherwise.
pub open spec fn start_row(recs: Seq<Seq<Seq<char>>>) -> int {
    if recs.len() == 0 {
        0
    } else if recs[0].len() > 0 {
        1
    } else {
        0
    }
}

/// How many data records are written: all that follow the header, up to the
/// row ceiling.
pub open spec fn data_count(recs: Seq<Seq<Seq<char>>>) -> int {
    if recs.len() == 0 {
        0
    } else if recs.len() - 1 <= MAX_ROWS - start_row(recs) {
        recs.len() - 1
    } else {
        MAX_ROWS - start_row(recs)
    }
}

/// The worksheet cells after the header and the first `j` data records,
/// data record `j` standing on row `start_row + j - 1`.
pub open spec fn model_upto(recs: Seq<Seq<Seq<char>>>, j: int) -> Map<(int, int), (bool, Seq<char>)>
    decreases j,
{
    if j <= 0 {
        header_cells(header_of(recs))
    } else {
        model_upto(recs, j - 1).union_prefer_right(
            record_cells(recs[j], start_row(recs) + j - 1),
        )
    }
}

/// The full model of the worksheet produced from a parsed source.
pub open spec fn sheet_model(recs: Seq<Seq<Seq<char>>>) -> Map<(int, int), (bool, Seq<char>)> {
    model_upto(recs, data_count(recs))
}

/// Whether one field's cell, if any, fits in a worksheet cell: only a text
/// cell can be too large.
pub open spec fn field_fits(f: Seq<char>) -> bool {
    match cell_of(f) {
        Some(c) => c.0 || text_fits(c.1),
        None => true,
    }
}

/// Whether every considered header field fits as a text cell.
pub open spec fn header_fits(hdr: Seq<Seq<char>>) -> bool {
    forall|c: int| 0 <= c < capped_cols(hdr.len()) ==> text_fits(hdr[c])
}

/// Whether every cell one data record produces fits.
pub open spec fn record_fits(rec: Seq<Seq<char>>) -> bool {
    forall|c: int| 0 <= c < capped_cols(rec.len()) ==> field_fits(rec[c])
}

/// Whether every cell the written data records produce fits.
pub open spec fn data_fits(recs: Seq<Seq<Seq<char>>>) -> bool {
    forall|j: int| 1 <= j <= data_count(recs) ==> record_fits(recs[j])
}

/// Whether every cell a parsed source produces fits.
pub open spec fn cells_fit(recs: Seq<Seq<Seq<char>>>) -> bool {
    header_fits(header_of(recs)) && data_fits(recs)
}

/// Whether transcribing a source into a sheet with the given name succeeds:
/// the bytes split into records, the name is one Excel accepts, and every
/// produced cell fits.
pub open spec fn convert_ok(source: Seq<u8>, name: Seq<char>) -> bool {
    &&& csv_parse(source) is Some
    &&& sheet_name_ok(name)
    &&& cells_fit(csv_parse(source)->Some_0)
}

/// Which error a failing transcription of a source yields: a refused name
/// first, then an unreadable source, then an oversize cell.
pub open spec fn error_matches(source: Seq<u8>, name: Seq<char>, e: crate::ConvertError) -> bool {
    match e {
        crate::ConvertError::InvalidSheetName => !sheet_name_ok(name),
        crate::ConvertError::UnreadableRecord => sheet_name_ok(name) && csv_parse(source) is None,
        crate::ConvertError::OversizeCell => sheet_name_ok(name) && csv_parse(source) is Some
            && !cells_fit(csv_parse(source)->Some_0),
    }
}

/// How many rows the transcription of a parsed source occupies: the header
/// row, when one was written, plus every written data record.
pub open spec fn rows_written(recs: Seq<Seq<Seq<char>>>) -> int {
    start_row(recs) + data_count(recs)
}

/// Taking one more header field into account adds its text cell, or nothing
/// when the field is empty.
pub proof fn lemma_header_step(hdr: Seq<Seq<char>>, c: int)
    requires
        0 <= c,
    ensures
        header_cells_upto(hdr, c + 1) == (if hdr[c].len() > 0 {
            header_cells_upto(hdr, c).insert((0, c), (false, hdr[c]))
        } else {
            header_cells_upto(hdr, c)
        }),
{
    if hdr[c].len() > 0 {
        assert_maps_equal!(
            header_cells_upto(hdr, c + 1),
            header_cells_upto(hdr, c).insert((0, c), (false, hdr[c])),
        );
    } else {
        assert_maps_equal!(header_cells_upto(hdr, c + 1), header_cells_upto(hdr, c));
    }
}

/// Taking one more data field into account adds its cell, if it produces
/// one.
pub proof fn lemma_record_step(rec: Seq<Seq<char>>, row: int, c: int)
    requires
        0 <= c,
    ensures
        record_cells_upto(rec, row, c + 1) == (match cell_of(rec[c]) {
            Some(cell) => record_cells_upto(rec, row, c).insert((row, c), cell),
            None => record_cells_upto(rec, row, c),
        }),
{
    match cell_of(rec[c]) {
        Some(cell) => {
            assert_maps_equal!(
                record_cells_upto(rec, row, c + 1),
                record_cells_upto(rec, row, c).insert((row, c), cell),
            );
        },
        None => {
            assert_maps_equal!(
                record_cells_upto(rec, row, c + 1),
                record_cells_upto(rec, row, c),
            );
        },
    }
}

/// Inserting into the right side of a right-preferring union is inserting
/// into the union.
pub proof fn lemma_union_insert(
    m: Map<(int, int), (bool, Seq<char>)>,
    p: Map<(int, int), (bool, Seq<char>)>,
    k: (int, int),
    v: (bool, Seq<char>),
)
    ensures
        m.union_prefer_right(p).insert(k, v) == m.union_prefer_right(p.insert(k, v)),
{
    assert_maps_equal!(
        m.union_prefer_right(p).insert(k, v),
        m.union_prefer_right(p.insert(k, v)),
    );
}

/// A right-preferring union with nothing on the right changes nothing.
pub proof fn lemma_union_empty(m: Map<(int, int), (bool, Seq<char>)>)
    ensures
        m.union_prefer_right(Map::empty()) == m,
{
    assert_maps_equal!(m.union_prefer_right(Map::empty()), m);
}

} // verus!

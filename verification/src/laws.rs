//! The laws the library states of every transcription, proved over the
//! worksheet model that `write_worksheet` ensures.
use vstd::prelude::*;

verus! {

use crate::MAX_COLUMNS;
use crate::MAX_ROWS;
use crate::classify::cell_of;
use crate::classify::float_parse;
use crate::classify::inf_marker;
use crate::model::capped_cols;
use crate::model::data_count;
use crate::model::header_cells;
use crate::model::header_of;
use crate::model::model_upto;
use crate::model::record_cells;
use crate::model::sheet_model;
use crate::model::start_row;

/// Every cell of the first `n` written data records stands on a row below
/// `start_row + n` and on a column below the column ceiling.
proof fn lemma_model_upto_keys(recs: Seq<Seq<Seq<char>>>, n: int)
    requires
        0 <= n,
    ensures
        forall|k: (int, int)| #[trigger]
            model_upto(recs, n).contains_key(k) ==> 0 <= k.0 && k.0 < start_row(recs) + n && 0
                <= k.1 && k.1 < MAX_COLUMNS as int,
    decreases n,
{
    if n == 0 {
        assert forall|k: (int, int)| #[trigger]
            model_upto(recs, n).contains_key(k) implies 0 <= k.0 && k.0 < start_row(recs) + n && 0
            <= k.1 && k.1 < MAX_COLUMNS as int by {
            assert(0 <= k.1 && k.1 < capped_cols(header_of(recs).len()));
            assert(header_of(recs).len() > 0);
            assert(recs.len() > 0 && recs[0].len() > 0);
            assert(start_row(recs) == 1);
        }
    } else {
        lemma_model_upto_keys(recs, n - 1);
        assert forall|k: (int, int)| #[trigger]
            model_upto(recs, n).contains_key(k) implies 0 <= k.0 && k.0 < start_row(recs) + n && 0
            <= k.1 && k.1 < MAX_COLUMNS as int by {
            if model_upto(recs, n - 1).contains_key(k) {
            } else {
                assert(record_cells(recs[n], start_row(recs) + n - 1).contains_key(k));
                assert(k.1 < capped_cols(recs[n].len()));
            }
        }
    }
}

/// On row 0 the model of the whole sheet agrees with the header cells,
/// whenever a header row was written.
proof fn lemma_upto_row0_key(recs: Seq<Seq<Seq<char>>>, n: int, k: (int, int))
    requires
        0 <= n,
        start_row(recs) == 1,
        k.0 == 0,
    ensures
        model_upto(recs, n).contains_key(k) <==> header_cells(header_of(recs)).contains_key(k),
        model_upto(recs, n).contains_key(k) ==> model_upto(recs, n)[k] == header_cells(
            header_of(recs),
        )[k],
    decreases n,
{
    if n > 0 {
        lemma_upto_row0_key(recs, n - 1, k);
        assert(!record_cells(recs[n], start_row(recs) + n - 1).contains_key(k));
    }
}

/// On the row of data record `j` the model of the first `n` written records
/// agrees with that record's own cells.
proof fn lemma_upto_record_key(recs: Seq<Seq<Seq<char>>>, j: int, n: int, k: (int, int))
    requires
        1 <= j <= n,
        k.0 == start_row(recs) + j - 1,
    ensures
        model_upto(recs, n).contains_key(k) <==> record_cells(recs[j], k.0).contains_key(k),
        model_upto(recs, n).contains_key(k) ==> model_upto(recs, n)[k] == record_cells(
            recs[j],
            k.0,
        )[k],
    decreases n,
{
    if n == j {
        lemma_model_upto_keys(recs, j - 1);
        assert(!model_upto(recs, j - 1).contains_key(k));
    } else {
        lemma_upto_record_key(recs, j, n - 1, k);
        assert(!record_cells(recs[n], start_row(recs) + n - 1).contains_key(k));
    }
}

/// Law: row 0 of the produced worksheet is the header row. Every considered
/// nonempty header field stands at its column as a text cell holding the
/// field unchanged, and an empty header field leaves its cell absent.
pub proof fn lemma_header_row(recs: Seq<Seq<Seq<char>>>, c: int)
    requires
        recs.len() > 0,
        0 <= c < capped_cols(recs[0].len()),
    ensures
        recs[0][c].len() > 0 ==> sheet_model(recs).contains_key((0, c)) && sheet_model(recs)[(
            0,
            c,
        )] == (false, recs[0][c]),
        recs[0][c].len() == 0 ==> !sheet_model(recs).contains_key((0, c)),
{
    lemma_upto_row0_key(recs, data_count(recs), (0, c));
}

/// Law: every considered field of a written data record stands at its row
/// and column exactly as its classification asks: a numeric cell carrying
/// the field's parse, a text cell holding the field unchanged, or no cell
/// at all for an empty or NaN field.
pub proof fn lemma_data_row(recs: Seq<Seq<Seq<char>>>, j: int, c: int)
    requires
        1 <= j <= data_count(recs),
        0 <= c < capped_cols(recs[j].len()),
    ensures
        ({
            let row = start_row(recs) + j - 1;
            match cell_of(recs[j][c]) {
                Some(cell) => sheet_model(recs).contains_key((row, c)) && sheet_model(recs)[(
                    row,
                    c,
                )] == cell,
                None => !sheet_model(recs).contains_key((row, c)),
            }
        }),
{
    let row = start_row(recs) + j - 1;
    lemma_upto_record_key(recs, j, data_count(recs), (row, c));
}

/// Law: a field whose text does not parse as a 64-bit float is stored as a
/// text cell holding that text unchanged.
pub proof fn lemma_unparsed_field_kept(f: Seq<char>)
    requires
        f.len() > 0,
        float_parse(f) is None,
    ensures
        cell_of(f) == Some((false, f)),
{
}

/// Law: a field whose text parses to a finite 64-bit float is stored as a
/// numeric cell carrying exactly that parse, recorded by the text it was
/// parsed from.
pub proof fn lemma_parsed_field_number(f: Seq<char>)
    requires
        f.len() > 0,
        float_parse(f) matches Some(flags) && !flags.0 && !flags.1,
    ensures
        cell_of(f) == Some((true, f)),
{
}

/// Law: a field whose text parses to an infinite value, which Excel cannot
/// store as a number, is stored as the text cell of its marker.
pub proof fn lemma_infinite_field_marker(f: Seq<char>)
    requires
        f.len() > 0,
        float_parse(f) matches Some(flags) && !flags.0 && flags.1,
    ensures
        cell_of(f) == Some((false, inf_marker(float_parse(f)->Some_0.2))),
{
}

/// Law: an empty field never produces a cell.
pub proof fn lemma_empty_field_no_cell(f: Seq<char>)
    requires
        f.len() == 0,
    ensures
        cell_of(f) is None,
{
}

/// Law: a field parsing to NaN never produces a cell.
pub proof fn lemma_nan_field_no_cell(f: Seq<char>)
    requires
        float_parse(f) matches Some(flags) && flags.0,
    ensures
        cell_of(f) is None,
{
}

/// Law: the produced worksheet never holds a cell at or beyond the row or
/// column ceiling, whatever the source held.
pub proof fn lemma_model_within_limits(recs: Seq<Seq<Seq<char>>>)
    ensures
        forall|k: (int, int)| #[trigger]
            sheet_model(recs).contains_key(k) ==> 0 <= k.0 && k.0 < MAX_ROWS as int && 0 <= k.1
                && k.1 < MAX_COLUMNS as int,
{
    lemma_model_upto_keys(recs, data_count(recs));
}

} // verus!

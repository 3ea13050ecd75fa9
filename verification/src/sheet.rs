//! The worksheet object, held behind trusted contracts.
//!
//! The worksheet itself belongs to `rust_xlsxwriter`; the library fills it
//! through the small trusted wrappers below, whose contracts speak of three
//! named views of a worksheet: its cells, its display name and its tab
//! color.
use rust_xlsxwriter::Worksheet;
use vstd::prelude::*;

verus! {

use crate::MAX_COLUMNS;
use crate::MAX_ROWS;
use crate::classify::float_parse;
use crate::classify::number_cell;

#[verifier::external_type_specification]
#[verifier::external_body]
pub struct ExWorksheet(Worksheet);

/// The cells a worksheet holds, keyed by zero-based (row, column). A cell's
/// flag is true for a numeric cell, which is recorded by the text whose
/// parse it stores, and false for a text cell holding the text itself.
pub uninterp spec fn sheet_cells(ws: Worksheet) -> Map<(int, int), (bool, Seq<char>)>;

/// The worksheet's display name.
pub uninterp spec fn sheet_name_of(ws: Worksheet) -> Seq<char>;

/// The text of the worksheet's effective tab color: the text the color was
/// last set from, and the empty text for the default, uncolored tab.
pub uninterp spec fn sheet_tab_color(ws: Worksheet) -> Seq<char>;

/// How `rust_xlsxwriter` reads a text as a tab color: `None` when it is not
/// a hexadecimal value at all, `Some(ok)` when it is, with `ok` true
/// exactly when the value is within the RGB range `0x000000..=0xFFFFFF`.
/// Names the decision made inside `Worksheet::set_tab_color`, which depends
/// on the characters alone.
pub uninterp spec fn tab_color_parse(s: Seq<char>) -> Option<bool>;

/// Whether `rust_xlsxwriter` accepts a text as a tab color and stores the
/// color it denotes.
pub open spec fn tab_color_accepted(s: Seq<char>) -> bool {
    tab_color_parse(s) == Some(true)
}

/// Whether a character is a hexadecimal digit.
pub open spec fn hex_digit(c: char) -> bool {
    ('0' <= c && c <= '9') || ('a' <= c && c <= 'f') || ('A' <= c && c <= 'F')
}

/// A plain six-digit hexadecimal RGB text: the form of color text the
/// spreadsheet library always accepts.
pub open spec fn plain_hex_color(s: Seq<char>) -> bool {
    s.len() == 6 && (forall|i: int| 0 <= i < 6 ==> hex_digit(s[i]))
}

/// The characters Excel refuses anywhere in a worksheet name.
pub open spec fn invalid_name_char(c: char) -> bool {
    c == '*' || c == '?' || c == ':' || c == '[' || c == ']' || c == '\\' || c == '/'
}

/// Whether Excel accepts a worksheet name: nonempty, at most 31 characters,
/// none of `* ? : [ ] \ /` anywhere, and no apostrophe at either end.
pub open spec fn sheet_name_ok(n: Seq<char>) -> bool {
    &&& 0 < n.len() <= 31
    &&& (forall|i: int| 0 <= i < n.len() ==> !invalid_name_char(n[i]))
    &&& n[0] != '\''
    &&& n[n.len() - 1] != '\''
}

/// The most characters one cell can hold as text.
pub const MAX_CELL_CHARS: usize = 32767;

/// Whether a text fits in one cell.
pub open spec fn text_fits(f: Seq<char>) -> bool {
    f.len() <= MAX_CELL_CHARS
}

/// Relies on `rust_xlsxwriter::Worksheet::new`: a fresh worksheet holds no
/// cells and its tab shows the default color.
#[verifier::external_body]
pub(crate) fn ws_new() -> (ws: Worksheet)
    ensures
        sheet_cells(ws) =~= Map::empty(),
        sheet_tab_color(ws) == Seq::<char>::empty(),
{
    Worksheet::new()
}

/// Relies on `rust_xlsxwriter::Worksheet::set_name`, which validates before
/// it stores: it accepts exactly the names Excel does, and it touches
/// nothing but the name.
#[verifier::external_body]
pub(crate) fn ws_set_name(ws: &mut Worksheet, name: &str) -> (r: Result<(), ()>)
    ensures
        r is Ok <==> sheet_name_ok(name@),
        r is Ok ==> sheet_name_of(*final(ws)) == name@,
        sheet_cells(*final(ws)) == sheet_cells(*old(ws)),
        sheet_tab_color(*final(ws)) == sheet_tab_color(*old(ws)),
{
    match ws.set_name(name) {
        Ok(_) => Ok(()),
        Err(_) => Err(()),
    }
}

/// Relies on `rust_xlsxwriter::Worksheet::set_tab_color`: it stores the
/// color a hexadecimal text within the RGB range denotes; a hexadecimal
/// text beyond that range is ignored with the stored color kept; any other
/// text resets the stored color to the default. A plain six-digit
/// hexadecimal text is always within range, so it always takes effect. The
/// call touches nothing else.
#[verifier::external_body]
pub(crate) fn ws_set_tab_color(ws: &mut Worksheet, color: &str)
    ensures
        sheet_tab_color(*final(ws)) == (match tab_color_parse(color@) {
            Some(true) => color@,
            Some(false) => sheet_tab_color(*old(ws)),
            None => Seq::<char>::empty(),
        }),
        plain_hex_color(color@) ==> sheet_tab_color(*final(ws)) == color@,
        sheet_cells(*final(ws)) == sheet_cells(*old(ws)),
        sheet_name_of(*final(ws)) == sheet_name_of(*old(ws)),
{
    ws.set_tab_color(color);
}

/// Relies on `rust_xlsxwriter::Worksheet::write_string`: within the row and
/// column ceilings it stores the text as a text cell and fails exactly when
/// the text is over the cell character limit, except that an empty text is
/// ignored without producing a cell.
#[verifier::external_body]
pub(crate) fn ws_write_string(ws: &mut Worksheet, row: u32, col: u16, field: &str) -> (r: Result<
    (),
    (),
>)
    requires
        row < MAX_ROWS,
        col < MAX_COLUMNS as u16,
    ensures
        r is Ok <==> text_fits(field@),
        r is Ok ==> sheet_cells(*final(ws)) == (if field@.len() == 0 {
            sheet_cells(*old(ws))
        } else {
            sheet_cells(*old(ws)).insert((row as int, col as int), (false, field@))
        }),
        sheet_name_of(*final(ws)) == sheet_name_of(*old(ws)),
        sheet_tab_color(*final(ws)) == sheet_tab_color(*old(ws)),
{
    match ws.write_string(row, col, field) {
        Ok(_) => Ok(()),
        Err(_) => Err(()),
    }
}

/// Relies on `rust_xlsxwriter::Worksheet::write_number` and `str::parse` to
/// a 64-bit float: within the row and column ceilings it stores, without
/// failing, exactly the parsed value as the cell's number — except that an
/// infinite value, which Excel cannot store as a number, is stored as the
/// text cell of its marker, INF or -INF. The callers guarantee that the
/// text parses and is not NaN. The zero drawn from `Duration` only fixes
/// the parse target as the 64-bit float type; the parsed value is stored
/// unchanged.
#[verifier::external_body]
pub(crate) fn ws_write_number_field(ws: &mut Worksheet, row: u32, col: u16, field: &str)
    requires
        row < MAX_ROWS,
        col < MAX_COLUMNS as u16,
        float_parse(field@) matches Some(flags) && !flags.0,
    ensures
        sheet_cells(*final(ws)) == sheet_cells(*old(ws)).insert(
            (row as int, col as int),
            number_cell(field@),
        ),
        sheet_name_of(*final(ws)) == sheet_name_of(*old(ws)),
        sheet_tab_color(*final(ws)) == sheet_tab_color(*old(ws)),
{
    let zero = std::time::Duration::ZERO.as_secs_f64();
    if let Ok(x) = field.parse() {
        let pinned = [x, zero];
        let _ = ws.write_number(row, col, pinned[0]);
    }
}

} // verus!

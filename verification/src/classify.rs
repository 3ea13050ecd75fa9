//! Per-field cell classification: number, text, or no cell at all.
use vstd::prelude::*;

verus! {

/// What an attempt to read a text as a 64-bit float yields: `None` when the
/// text is not a float, `Some((nan, inf, neg))` when it parses, where `nan`
/// says the value is NaN, `inf` that it is infinite, and `neg` that its
/// sign is negative. Names the outcome of `str::parse::<f64>`, which
/// depends on the characters alone.
pub uninterp spec fn float_parse(s: Seq<char>) -> Option<(bool, bool, bool)>;

/// The classification of one CSV field.
#[derive(Clone, Copy, PartialEq, Eq, Structural, Debug)]
pub enum FieldClass {
    /// The empty string: no cell is produced.
    Empty,
    /// Text that parses to a NaN float: no cell is produced.
    NanNumber,
    /// Text that parses to a float other than NaN: a numeric cell (Excel
    /// shows an infinite value through its textual marker).
    Number,
    /// Text that does not parse as a float: a text cell.
    Text,
}

/// How one field is classified, per the fixed numeric grammar of
/// `str::parse::<f64>`: an empty field or a NaN produces nothing, any other
/// successful parse a number, everything else text.
pub open spec fn spec_classify(f: Seq<char>) -> FieldClass {
    if f.len() == 0 {
        FieldClass::Empty
    } else {
        match float_parse(f) {
            Some(flags) => if flags.0 {
                FieldClass::NanNumber
            } else {
                FieldClass::Number
            },
            None => FieldClass::Text,
        }
    }
}

/// The text Excel shows in place of an infinite value, which it cannot
/// store as a number.
pub open spec fn inf_marker(negative: bool) -> Seq<char> {
    if negative {
        seq!['-', 'I', 'N', 'F']
    } else {
        seq!['I', 'N', 'F']
    }
}

/// The cell a parsing, non-NaN field produces: a numeric cell carrying its
/// parse (recorded by the text it was parsed from), except that an infinite
/// value is stored as the text of its marker.
pub open spec fn number_cell(f: Seq<char>) -> (bool, Seq<char>) {
    match float_parse(f) {
        Some(flags) => if flags.1 {
            (false, inf_marker(flags.2))
        } else {
            (true, f)
        },
        None => (true, f),
    }
}

/// The cell one field produces, if any: the flag is true for a numeric cell
/// (recorded by the text it was parsed from) and false for a text cell
/// holding the text itself.
pub open spec fn cell_of(f: Seq<char>) -> Option<(bool, Seq<char>)> {
    if f.len() == 0 {
        None
    } else {
        match float_parse(f) {
            Some(flags) => if flags.0 {
                None
            } else {
                Some(number_cell(f))
            },
            None => Some((false, f)),
        }
    }
}

/// Relies on `str::parse` to a 64-bit float (its result inspected with
/// `is_nan`, `is_infinite` and `is_sign_negative`): whether a text parses
/// as a float, and which kind of value it parses to, depend on the
/// characters alone. The zero drawn from `Duration` only fixes the parse
/// target as the 64-bit float type; the parsed value itself is inspected
/// unchanged.
#[verifier::external_body]
fn float_parse_field(s: &str) -> (r: Option<(bool, bool, bool)>)
    ensures
        r == float_parse(s@),
{
    let zero = std::time::Duration::ZERO.as_secs_f64();
    match s.parse() {
        Ok(x) => {
            let pinned = [x, zero];
            Some((pinned[0].is_nan(), pinned[0].is_infinite(), pinned[0].is_sign_negative()))
        },
        Err(_) => None,
    }
}

/// Classifies one CSV field as the kind of cell it will produce.
pub fn classify(field: &str) -> (r: FieldClass)
    ensures
        r == spec_classify(field@),
{
    if field.is_empty() {
        FieldClass::Empty
    } else {
        match float_parse_field(field) {
            Some(flags) => {
                if flags.0 {
                    FieldClass::NanNumber
                } else {
                    FieldClass::Number
                }
            },
            None => FieldClass::Text,
        }
    }
}

} // verus!

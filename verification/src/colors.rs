//! Translating common color names into the hexadecimal texts the
//! spreadsheet library reads, so that a descriptor saying "red" colors its
//! tab. The palette and its values are the spreadsheet library's own named
//! colors; any other text is handed on unchanged.
use vstd::prelude::*;

verus! {

use crate::sheet::plain_hex_color;
use crate::sheet::tab_color_accepted;

/// The text handed to the spreadsheet library for a descriptor's tab
/// color: the hexadecimal value of a known color name, any other text
/// unchanged.
pub open spec fn tab_color_text(s: Seq<char>) -> Seq<char> {
    if s == "black"@ {
        "000000"@
    } else if s == "blue"@ {
        "0000FF"@
    } else if s == "brown"@ {
        "800000"@
    } else if s == "cyan"@ {
        "00FFFF"@
    } else if s == "gray"@ {
        "808080"@
    } else if s == "green"@ {
        "008000"@
    } else if s == "lime"@ {
        "00FF00"@
    } else if s == "magenta"@ {
        "FF00FF"@
    } else if s == "navy"@ {
        "000080"@
    } else if s == "orange"@ {
        "FF6600"@
    } else if s == "pink"@ {
        "FFC0CB"@
    } else if s == "purple"@ {
        "800080"@
    } else if s == "red"@ {
        "FF0000"@
    } else if s == "silver"@ {
        "C0C0C0"@
    } else if s == "white"@ {
        "FFFFFF"@
    } else if s == "yellow"@ {
        "FFFF00"@
    } else {
        s
    }
}

/// The text of the tab color a descriptor's text leaves on the sheet: the
/// translated text when the library accepts it, the default (empty)
/// otherwise.
pub open spec fn tab_color_outcome(c: Seq<char>) -> Seq<char> {
    if tab_color_accepted(tab_color_text(c)) {
        tab_color_text(c)
    } else {
        Seq::empty()
    }
}

/// Whether two texts hold the same characters.
fn str_equal(a: &str, b: &str) -> (r: bool)
    ensures
        r == (a@ == b@),
{
    a.to_owned() == b.to_owned()
}

/// Translates a known color name into its hexadecimal text; any other text
/// is returned unchanged.
pub fn resolve_tab_color<'a>(color: &'a str) -> (r: &'a str)
    ensures
        r@ == tab_color_text(color@),
{
    if str_equal(color, "black") {
        "000000"
    } else if str_equal(color, "blue") {
        "0000FF"
    } else if str_equal(color, "brown") {
        "800000"
    } else if str_equal(color, "cyan") {
        "00FFFF"
    } else if str_equal(color, "gray") {
        "808080"
    } else if str_equal(color, "green") {
        "008000"
    } else if str_equal(color, "lime") {
        "00FF00"
    } else if str_equal(color, "magenta") {
        "FF00FF"
    } else if str_equal(color, "navy") {
        "000080"
    } else if str_equal(color, "orange") {
        "FF6600"
    } else if str_equal(color, "pink") {
        "FFC0CB"
    } else if str_equal(color, "purple") {
        "800080"
    } else if str_equal(color, "red") {
        "FF0000"
    } else if str_equal(color, "silver") {
        "C0C0C0"
    } else if str_equal(color, "white") {
        "FFFFFF"
    } else if str_equal(color, "yellow") {
        "FFFF00"
    } else {
        color
    }
}

/// Every translated palette text is a plain six-digit hexadecimal color,
/// which the spreadsheet library always accepts.
pub proof fn lemma_palette_hex(name: Seq<char>)
    requires
        tab_color_text(name) != name,
    ensures
        plain_hex_color(tab_color_text(name)),
{
    reveal_strlit("000000");
    reveal_strlit("0000FF");
    reveal_strlit("800000");
    reveal_strlit("00FFFF");
    reveal_strlit("808080");
    reveal_strlit("008000");
    reveal_strlit("00FF00");
    reveal_strlit("FF00FF");
    reveal_strlit("000080");
    reveal_strlit("FF6600");
    reveal_strlit("FFC0CB");
    reveal_strlit("800080");
    reveal_strlit("FF0000");
    reveal_strlit("C0C0C0");
    reveal_strlit("FFFFFF");
    reveal_strlit("FFFF00");
}

} // verus!

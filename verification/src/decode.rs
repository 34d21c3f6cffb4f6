//! Typed decoding of query results: which way a reported column type is
//! read, and how a read cell renders as text.
//!
//! The driver hands back raw cells; the caller converts each to a
//! `CellValue` according to `decode_class` and renders it here. Numbers
//! carry their value in hundredths, so the fixed two-decimal display is
//! exact; a NULL renders as the literal `NULL` marker.

use vstd::prelude::*;
use vstd::string::StringExecFns;
use crate::datatype::{
    spec_is_date_time,
    spec_is_numeric,
    spec_is_text_like,
    spec_is_time,
    SqlDataType,
};
use crate::strutil::{push_char, push_dec, push_dec_signed, push_digit, spec_dec, spec_dec_signed, spec_digit};

verus! {

/// How a column of a given reported type is read from the driver.
#[derive(Debug, PartialEq, Eq, Structural, Clone, Copy)]
pub enum DecodeClass {
    /// Read as text.
    TextClass,
    /// Read as a floating-point number.
    NumberClass,
    /// Read as a calendar date.
    DateClass,
    /// Read as a time of day.
    TimeClass,
    /// Read as a date with a time of day.
    TimestampClass,
    /// Anything else: fall back to reading as text.
    FallbackClass,
}

/// The decode dispatch: text-like tags read as text, numeric tags as
/// numbers, then dates, times and timestamps; every other tag falls back
/// to text.
pub open spec fn spec_decode_class(t: SqlDataType) -> DecodeClass {
    if spec_is_text_like(t) {
        DecodeClass::TextClass
    } else if spec_is_numeric(t) {
        DecodeClass::NumberClass
    } else if spec_is_date_time(t) {
        if t is Date {
            DecodeClass::DateClass
        } else {
            DecodeClass::TimestampClass
        }
    } else if spec_is_time(t) {
        DecodeClass::TimeClass
    } else {
        DecodeClass::FallbackClass
    }
}

/// Decides how a cell of the reported type is read.
pub fn decode_class(t: &SqlDataType) -> (r: DecodeClass)
    ensures
        r == spec_decode_class(*t),
{
    if t.is_text_like() {
        DecodeClass::TextClass
    } else if t.is_numeric() {
        DecodeClass::NumberClass
    } else if t.is_date_time() {
        match t {
            SqlDataType::Date => DecodeClass::DateClass,
            _ => DecodeClass::TimestampClass,
        }
    } else if t.is_time() {
        DecodeClass::TimeClass
    } else {
        DecodeClass::FallbackClass
    }
}

/// One decoded cell, as plain values.
#[derive(Debug)]
pub enum CellValue {
    /// The driver reported no value.
    Null,
    /// A text cell (also the fallback reading).
    Text(String),
    /// A numeric cell, scaled to hundredths of its value.
    Number { hundredths: i64 },
    /// A date cell.
    Date { year: i16, month: u16, day: u16 },
    /// A time-of-day cell.
    Time { hour: u16, minute: u16, second: u16 },
    /// A timestamp cell.
    Timestamp { year: i16, month: u16, day: u16, hour: u16, minute: u16, second: u16 },
}

/// The fixed two-decimal rendering of a value given in hundredths.
pub open spec fn spec_fixed2(h: int) -> Seq<char> {
    if h < 0 {
        seq!['-'] + spec_fixed2_mag((-h) as nat)
    } else {
        spec_fixed2_mag(h as nat)
    }
}

pub open spec fn spec_fixed2_mag(a: nat) -> Seq<char> {
    spec_dec(a / 100) + seq!['.', spec_digit(((a / 10) % 10) as int), spec_digit((a % 10) as int)]
}

/// The `Y.M.D` rendering of a date.
pub open spec fn spec_render_date(year: int, month: nat, day: nat) -> Seq<char> {
    spec_dec_signed(year) + seq!['.'] + spec_dec(month) + seq!['.'] + spec_dec(day)
}

/// The `H:M:S` rendering of a time of day.
pub open spec fn spec_render_time(hour: nat, minute: nat, second: nat) -> Seq<char> {
    spec_dec(hour) + seq![':'] + spec_dec(minute) + seq![':'] + spec_dec(second)
}

/// What a decoded cell displays as: text verbatim, numbers with two
/// decimals, dates as `Y.M.D`, times as `H:M:S`, timestamps as both parts
/// separated by a space, and NULL as the literal marker.
pub open spec fn spec_render_cell(c: CellValue) -> Seq<char> {
    match c {
        CellValue::Null => seq!['N', 'U', 'L', 'L'],
        CellValue::Text(s) => s@,
        CellValue::Number { hundredths } => spec_fixed2(hundredths as int),
        CellValue::Date { year, month, day } => spec_render_date(
            year as int,
            month as nat,
            day as nat,
        ),
        CellValue::Time { hour, minute, second } => spec_render_time(
            hour as nat,
            minute as nat,
            second as nat,
        ),
        CellValue::Timestamp { year, month, day, hour, minute, second } => spec_render_date(
            year as int,
            month as nat,
            day as nat,
        ) + seq![' '] + spec_render_time(hour as nat, minute as nat, second as nat),
    }
}

/// Renders a number given in hundredths with exactly two decimals.
pub fn format_fixed2(hundredths: i64) -> (r: String)
    ensures
        r@ == spec_fixed2(hundredths as int),
{
    let mut s = String::new();
    let a: u64 = if hundredths < 0 {
        push_char(&mut s, '-');
        ((-(hundredths + 1)) as u64) + 1
    } else {
        hundredths as u64
    };
    proof {
        assert(hundredths < 0 ==> a == -(hundredths as int));
    }
    push_dec(&mut s, a / 100);
    push_char(&mut s, '.');
    push_digit(&mut s, (a / 10) % 10);
    push_digit(&mut s, a % 10);
    proof {
        assert(s@ =~= spec_fixed2(hundredths as int));
    }
    s
}

fn push_date(s: &mut String, year: i16, month: u16, day: u16)
    ensures
        final(s)@ == old(s)@ + spec_render_date(year as int, month as nat, day as nat),
{
    push_dec_signed(s, year as i64);
    push_char(s, '.');
    push_dec(s, month as u64);
    push_char(s, '.');
    push_dec(s, day as u64);
    proof {
        assert(final(s)@ =~= old(s)@ + spec_render_date(year as int, month as nat, day as nat));
    }
}

fn push_time(s: &mut String, hour: u16, minute: u16, second: u16)
    ensures
        final(s)@ == old(s)@ + spec_render_time(hour as nat, minute as nat, second as nat),
{
    push_dec(s, hour as u64);
    push_char(s, ':');
    push_dec(s, minute as u64);
    push_char(s, ':');
    push_dec(s, second as u64);
    proof {
        assert(final(s)@ =~= old(s)@ + spec_render_time(
            hour as nat,
            minute as nat,
            second as nat,
        ));
    }
}

impl CellValue {
    /// Renders the cell for display.
    pub fn render(&self) -> (r: String)
        ensures
            r@ == spec_render_cell(*self),
    {
        match self {
            CellValue::Null => {
                proof {
                    reveal_strlit("NULL");
                    assert("NULL"@ =~= spec_render_cell(CellValue::Null));
                }
                String::from_str("NULL")
            },
            CellValue::Text(s) => s.clone(),
            CellValue::Number { hundredths } => format_fixed2(*hundredths),
            CellValue::Date { year, month, day } => {
                let mut s = String::new();
                push_date(&mut s, *year, *month, *day);
                s
            },
            CellValue::Time { hour, minute, second } => {
                let mut s = String::new();
                push_time(&mut s, *hour, *minute, *second);
                s
            },
            CellValue::Timestamp { year, month, day, hour, minute, second } => {
                let mut s = String::new();
                push_date(&mut s, *year, *month, *day);
                push_char(&mut s, ' ');
                push_time(&mut s, *hour, *minute, *second);
                proof {
                    assert(s@ =~= spec_render_cell(*self));
                }
                s
            },
        }
    }
}

/// A row's display line: every cell rendered, each followed by a comma and
/// a tab.
pub open spec fn spec_render_row(cells: Seq<CellValue>) -> Seq<char>
    decreases cells.len(),
{
    if cells.len() == 0 {
        Seq::empty()
    } else {
        spec_render_row(cells.drop_last()) + spec_render_cell(cells.last()) + seq![',', '\t']
    }
}

/// Renders a whole row of decoded cells.
pub fn render_row(cells: &Vec<CellValue>) -> (r: String)
    ensures
        r@ == spec_render_row(cells@),
{
    let mut r = String::new();
    let mut i: usize = 0;
    while i < cells.len()
        invariant
            i <= cells@.len(),
            r@ == spec_render_row(cells@.subrange(0, i as int)),
        decreases cells.len() - i,
    {
        let cell = cells[i].render();
        r.append(cell.as_str());
        push_char(&mut r, ',');
        push_char(&mut r, '\t');
        proof {
            assert(cells@.subrange(0, i + 1).drop_last() =~= cells@.subrange(0, i as int));
            assert(cells@.subrange(0, i + 1).last() == cells@[i as int]);
            assert(r@ =~= spec_render_row(cells@.subrange(0, i + 1)));
        }
        i += 1;
    }
    proof {
        assert(cells@.subrange(0, cells@.len() as int) =~= cells@);
    }
    r
}

} // verus!

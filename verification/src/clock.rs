//! Wall-clock timestamps as plain calendar fields, and their fixed-width
//! text renderings.

use vstd::prelude::*;
use vstd::string::StringExecFns;

use crate::textfmt::char_is_digit;
use crate::textfmt::count_char;
use crate::textfmt::lemma_count_char_concat;
use crate::textfmt::lemma_count_char_single;
use crate::textfmt::lemma_fixed_clean;
use crate::textfmt::push_fixed;
use crate::textfmt::spec_fixed;

verus! {

/// One local calendar date and time, as plain fields.
#[derive(Clone, Copy, Debug, PartialEq, Eq, Structural)]
pub struct Timestamp {
    pub year: u16,
    pub month: u8,
    pub day: u8,
    pub hour: u8,
    pub minute: u8,
    pub second: u8,
}

impl Timestamp {
    pub open spec fn wf(self) -> bool {
        &&& self.year <= 9999
        &&& 1 <= self.month <= 12
        &&& 1 <= self.day <= 31
        &&& self.hour <= 23
        &&& self.minute <= 59
        &&& self.second <= 59
    }

    pub fn new(year: u16, month: u8, day: u8, hour: u8, minute: u8, second: u8) -> (r: Self)
        ensures
            r == (Timestamp { year, month, day, hour, minute, second }),
    {
        Timestamp { year, month, day, hour, minute, second }
    }

    /// `MM/DD/YYYY HH:MM:SS`, the row timestamp format.
    pub open spec fn spec_datetime(self) -> Seq<char> {
        spec_fixed(self.month as nat, 2) + "/"@ + spec_fixed(self.day as nat, 2) + "/"@
            + spec_fixed(self.year as nat, 4) + " "@ + spec_fixed(self.hour as nat, 2) + ":"@
            + spec_fixed(self.minute as nat, 2) + ":"@ + spec_fixed(self.second as nat, 2)
    }

    /// `YYYY-MM-DD-HH-MM-SS`, the log file name stamp.
    pub open spec fn spec_file_stamp(self) -> Seq<char> {
        spec_fixed(self.year as nat, 4) + "-"@ + spec_fixed(self.month as nat, 2) + "-"@
            + spec_fixed(self.day as nat, 2) + "-"@ + spec_fixed(self.hour as nat, 2) + "-"@
            + spec_fixed(self.minute as nat, 2) + "-"@ + spec_fixed(self.second as nat, 2)
    }

    /// Renders `MM/DD/YYYY HH:MM:SS`.
    pub fn datetime_string(&self) -> (r: String)
        ensures
            r@ == self.spec_datetime(),
    {
        let mut s = String::new();
        push_fixed(&mut s, self.month as u32, 2);
        s.append("/");
        push_fixed(&mut s, self.day as u32, 2);
        s.append("/");
        push_fixed(&mut s, self.year as u32, 4);
        s.append(" ");
        push_fixed(&mut s, self.hour as u32, 2);
        s.append(":");
        push_fixed(&mut s, self.minute as u32, 2);
        s.append(":");
        push_fixed(&mut s, self.second as u32, 2);
        proof {
            assert(s@ =~= self.spec_datetime());
        }
        s
    }

    /// Renders `YYYY-MM-DD-HH-MM-SS`.
    pub fn file_stamp_string(&self) -> (r: String)
        ensures
            r@ == self.spec_file_stamp(),
    {
        let mut s = String::new();
        push_fixed(&mut s, self.year as u32, 4);
        s.append("-");
        push_fixed(&mut s, self.month as u32, 2);
        s.append("-");
        push_fixed(&mut s, self.day as u32, 2);
        s.append("-");
        push_fixed(&mut s, self.hour as u32, 2);
        s.append("-");
        push_fixed(&mut s, self.minute as u32, 2);
        s.append("-");
        push_fixed(&mut s, self.second as u32, 2);
        proof {
            assert(s@ =~= self.spec_file_stamp());
        }
        s
    }
}

/// A character that is neither a digit nor one of the three separators
/// does not occur in a rendered date-time.
pub proof fn lemma_datetime_clean(ts: Timestamp, c: char)
    requires
        !char_is_digit(c),
        c != '/',
        c != ' ',
        c != ':',
    ensures
        count_char(ts.spec_datetime(), c) == 0,
{
    reveal_strlit("/");
    reveal_strlit(" ");
    reveal_strlit(":");
    assert("/"@ =~= seq!['/']);
    assert(" "@ =~= seq![' ']);
    assert(":"@ =~= seq![':']);
    lemma_count_char_single('/', c);
    lemma_count_char_single(' ', c);
    lemma_count_char_single(':', c);
    lemma_fixed_clean(ts.month as nat, 2, c);
    lemma_fixed_clean(ts.day as nat, 2, c);
    lemma_fixed_clean(ts.year as nat, 4, c);
    lemma_fixed_clean(ts.hour as nat, 2, c);
    lemma_fixed_clean(ts.minute as nat, 2, c);
    lemma_fixed_clean(ts.second as nat, 2, c);
    let s1 = spec_fixed(ts.month as nat, 2);
    let s2 = s1 + "/"@;
    let s3 = s2 + spec_fixed(ts.day as nat, 2);
    let s4 = s3 + "/"@;
    let s5 = s4 + spec_fixed(ts.year as nat, 4);
    let s6 = s5 + " "@;
    let s7 = s6 + spec_fixed(ts.hour as nat, 2);
    let s8 = s7 + ":"@;
    let s9 = s8 + spec_fixed(ts.minute as nat, 2);
    let s10 = s9 + ":"@;
    lemma_count_char_concat(s1, "/"@, c);
    lemma_count_char_concat(s2, spec_fixed(ts.day as nat, 2), c);
    lemma_count_char_concat(s3, "/"@, c);
    lemma_count_char_concat(s4, spec_fixed(ts.year as nat, 4), c);
    lemma_count_char_concat(s5, " "@, c);
    lemma_count_char_concat(s6, spec_fixed(ts.hour as nat, 2), c);
    lemma_count_char_concat(s7, ":"@, c);
    lemma_count_char_concat(s8, spec_fixed(ts.minute as nat, 2), c);
    lemma_count_char_concat(s9, ":"@, c);
    lemma_count_char_concat(s10, spec_fixed(ts.second as nat, 2), c);
}

/// Relies on `chrono::Local::now` and its `Datelike`/`Timelike` accessors:
/// month is 1..=12, day is 1..=31, hour is 0..=23, minute and second are
/// 0..=59; the year is unbounded. Order: year, month, day, hour, minute,
/// second.
#[verifier::external_body]
fn now_parts() -> (r: (i32, u32, u32, u32, u32, u32))
    ensures
        1 <= r.1 <= 12,
        1 <= r.2 <= 31,
        r.3 <= 23,
        r.4 <= 59,
        r.5 <= 59,
{
    let n = chrono::Local::now();
    (
        chrono::Datelike::year(&n),
        chrono::Datelike::month(&n),
        chrono::Datelike::day(&n),
        chrono::Timelike::hour(&n),
        chrono::Timelike::minute(&n),
        chrono::Timelike::second(&n),
    )
}

/// The local time now; a year outside 0..=9999 is clamped to that range.
pub fn now_timestamp() -> (r: Timestamp)
    ensures
        r.wf(),
{
    let (y, mo, d, h, mi, s) = now_parts();
    let year: u16 = if y < 0 {
        0
    } else if y > 9999 {
        9999
    } else {
        y as u16
    };
    Timestamp {
        year,
        month: mo as u8,
        day: d as u8,
        hour: h as u8,
        minute: mi as u8,
        second: s as u8,
    }
}

} // verus!

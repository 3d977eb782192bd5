use vstd::prelude::*;

use crate::text::{push_decimal, push_padded2, push_signed};

verus! {

/// Hours the shown time lies ahead of the device clock.
pub const TIMEZONE_OFFSET_HOURS: u64 = 3;

/// A wall-clock reading, broken down into calendar fields the way the
/// screen shows it.
#[derive(Clone, Copy, Debug, PartialEq, Eq, Structural)]
pub struct ClockTime {
    pub year: i32,
    pub month: u32,
    pub day: u32,
    pub hour: u32,
    pub minute: u32,
    pub second: u32,
}

impl ClockTime {
    /// The fields lie in their calendar ranges.
    pub open spec fn is_valid(self) -> bool {
        &&& 1 <= self.month <= 12
        &&& 1 <= self.day <= 31
        &&& self.hour < 24
        &&& self.minute < 60
        &&& self.second < 60
    }

    /// The text of the clock line: `HH:MM:SS`, each field padded with '0'
    /// to two characters.
    pub open spec fn clock_spec(self) -> Seq<char> {
        crate::text::padded2(self.hour as nat) + seq![':'] + crate::text::padded2(self.minute as nat) + seq![':']
            + crate::text::padded2(self.second as nat)
    }

    /// The text of the date line: `day/month/year`, without padding.
    pub open spec fn date_spec(self) -> Seq<char> {
        crate::text::decimal(self.day as nat) + seq!['/'] + crate::text::decimal(self.month as nat) + seq!['/']
            + crate::text::signed_decimal(self.year as int)
    }

    /// Midnight of 1 January 1970.
    pub open spec fn epoch_spec() -> ClockTime {
        ClockTime { year: 1970, month: 1, day: 1, hour: 0, minute: 0, second: 0 }
    }

    /// Midnight of 1 January 1970, the reading before the clock is set.
    pub fn epoch() -> (t: ClockTime)
        ensures
            t == Self::epoch_spec(),
            t.is_valid(),
    {
        ClockTime { year: 1970, month: 1, day: 1, hour: 0, minute: 0, second: 0 }
    }

    /// The clock line.
    pub fn clock_text(&self) -> (s: String)
        ensures
            s@ == self.clock_spec(),
    {
        let mut s = String::new();
        push_padded2(&mut s, self.hour as u64);
        proof { reveal_strlit(":"); }
        s.append(":");
        push_padded2(&mut s, self.minute as u64);
        s.append(":");
        push_padded2(&mut s, self.second as u64);
        s
    }

    /// The date line.
    pub fn date_text(&self) -> (s: String)
        ensures
            s@ == self.date_spec(),
    {
        let mut s = String::new();
        push_decimal(&mut s, self.day as u64);
        proof { reveal_strlit("/"); }
        s.append("/");
        push_decimal(&mut s, self.month as u64);
        s.append("/");
        push_signed(&mut s, self.year);
        s
    }
}

/// The clock and date lines are one line each, of at most 35 characters,
/// whatever the fields hold.
pub proof fn lemma_clock_lines_short(t: ClockTime)
    ensures
        t.clock_spec().len() <= 35,
        crate::text::single_line(t.clock_spec()),
        t.date_spec().len() <= 35,
        crate::text::single_line(t.date_spec()),
{
    crate::text::lemma_number_texts_short(t.hour as nat, 0);
    crate::text::lemma_number_texts_short(t.minute as nat, 0);
    crate::text::lemma_number_texts_short(t.second as nat, t.year as int);
    crate::text::lemma_number_texts_short(t.day as nat, 0);
    crate::text::lemma_number_texts_short(t.month as nat, 0);
    let colon = seq![':'];
    let slash = seq!['/'];
    assert(crate::text::single_line(colon)) by {
        assert forall|i: int| 0 <= i < colon.len() implies #[trigger] colon[i] != '\n' && colon[i] != '\r' by {}
    }
    assert(crate::text::single_line(slash)) by {
        assert forall|i: int| 0 <= i < slash.len() implies #[trigger] slash[i] != '\n' && slash[i] != '\r' by {}
    }
    let h = crate::text::padded2(t.hour as nat);
    let m = crate::text::padded2(t.minute as nat);
    let sec = crate::text::padded2(t.second as nat);
    crate::text::lemma_single_line_concat(h, colon);
    crate::text::lemma_single_line_concat(h + colon, m);
    crate::text::lemma_single_line_concat(h + colon + m, colon);
    crate::text::lemma_single_line_concat(h + colon + m + colon, sec);
    let d = crate::text::decimal(t.day as nat);
    let mo = crate::text::decimal(t.month as nat);
    let y = crate::text::signed_decimal(t.year as int);
    crate::text::lemma_single_line_concat(d, slash);
    crate::text::lemma_single_line_concat(d + slash, mo);
    crate::text::lemma_single_line_concat(d + slash + mo, slash);
    crate::text::lemma_single_line_concat(d + slash + mo + slash, y);
}

/// The date line reads back: it holds exactly two '/', the parts before,
/// between and after them are the day, the month and the year in decimal
/// (the year with a '-' when it is negative), and the day and month parts
/// are digits only.
pub proof fn lemma_date_text_reads_back(t: ClockTime)
    ensures
        ({
            let s = t.date_spec();
            let i = crate::text::decimal(t.day as nat).len() as int;
            let j = i + 1 + crate::text::decimal(t.month as nat).len();
            &&& 1 <= i
            &&& i + 2 <= j
            &&& j < s.len()
            &&& s[i] == '/'
            &&& s[j] == '/'
            &&& (forall|k: int| 0 <= k < i ==> crate::text::is_digit(#[trigger] s[k]))
            &&& (forall|k: int| i < k < j ==> crate::text::is_digit(#[trigger] s[k]))
            &&& crate::text::decimal_value(s.subrange(0, i)) == t.day
            &&& crate::text::decimal_value(s.subrange(i + 1, j)) == t.month
            &&& (t.year >= 0 ==> crate::text::decimal_value(s.subrange(j + 1, s.len() as int)) == t.year)
            &&& (t.year < 0 ==> s[j + 1] == '-' && crate::text::decimal_value(
                s.subrange(j + 2, s.len() as int),
            ) == -t.year)
        }),
{
    let d = crate::text::decimal(t.day as nat);
    let mo = crate::text::decimal(t.month as nat);
    let y = crate::text::signed_decimal(t.year as int);
    let m: nat = if t.year < 0 { (-t.year) as nat } else { t.year as nat };
    crate::text::lemma_decimal_reads_back(t.day as nat);
    crate::text::lemma_decimal_reads_back(t.month as nat);
    crate::text::lemma_decimal_reads_back(m);
    let s = t.date_spec();
    let i = d.len() as int;
    let j = i + 1 + mo.len();
    assert(s =~= d + seq!['/'] + mo + seq!['/'] + y);
    assert(s.subrange(0, i) =~= d);
    assert(s.subrange(i + 1, j) =~= mo);
    assert(s.subrange(j + 1, s.len() as int) =~= y);
    assert forall|k: int| 0 <= k < i implies crate::text::is_digit(#[trigger] s[k]) by {
        assert(s[k] == d[k]);
    }
    assert forall|k: int| i < k < j implies crate::text::is_digit(#[trigger] s[k]) by {
        assert(s[k] == mo[k - i - 1]);
    }
    if t.year < 0 {
        assert(s.subrange(j + 2, s.len() as int) =~= crate::text::decimal(m));
    }
}

/// The clock line of a valid reading is eight characters long, has its
/// colons at positions 2 and 5, and its three two-digit groups read back as
/// the hour, the minute and the second.
pub proof fn lemma_clock_text_reads_back(t: ClockTime)
    requires
        t.is_valid(),
    ensures
        t.clock_spec().len() == 8,
        t.clock_spec()[2] == ':',
        t.clock_spec()[5] == ':',
        crate::text::decimal_value(t.clock_spec().subrange(0, 2)) == t.hour,
        crate::text::decimal_value(t.clock_spec().subrange(3, 5)) == t.minute,
        crate::text::decimal_value(t.clock_spec().subrange(6, 8)) == t.second,
{
    crate::text::lemma_padded2_reads_back(t.hour as nat);
    crate::text::lemma_padded2_reads_back(t.minute as nat);
    crate::text::lemma_padded2_reads_back(t.second as nat);
    let s = t.clock_spec();
    assert(s.subrange(0, 2) =~= crate::text::padded2(t.hour as nat));
    assert(s.subrange(3, 5) =~= crate::text::padded2(t.minute as nat));
    assert(s.subrange(6, 8) =~= crate::text::padded2(t.second as nat));
}

} // verus!

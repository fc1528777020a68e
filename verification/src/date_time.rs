use vstd::prelude::*;

use crate::fixed_str::ArrStr;
use crate::fixed_str::Charset;
use crate::fixed_str::StrD;
use crate::fixed_str::str_parse;

verus! {

/// Which decimal sub-field of a date failed validation; each carries its
/// own admissible range.
#[derive(Clone, Copy, Debug, PartialEq, Eq, Structural)]
pub enum DateRange {
    Year,
    Month,
    Day,
    Hour,
    Minute,
    Second,
    CentiSec,
}

impl DateRange {
    pub open spec fn spec_min(self) -> u16 {
        match self {
            DateRange::Year => 1,
            DateRange::Month => 1,
            DateRange::Day => 1,
            DateRange::Hour => 0,
            DateRange::Minute => 0,
            DateRange::Second => 0,
            DateRange::CentiSec => 0,
        }
    }

    pub open spec fn spec_max(self) -> u16 {
        match self {
            DateRange::Year => 9999,
            DateRange::Month => 12,
            DateRange::Day => 31,
            DateRange::Hour => 23,
            DateRange::Minute => 59,
            DateRange::Second => 59,
            DateRange::CentiSec => 99,
        }
    }

    /// Smallest admissible value of the sub-field.
    pub fn min_value(&self) -> (r: u16)
        ensures
            r == self.spec_min(),
    {
        match self {
            DateRange::Year => 1,
            DateRange::Month => 1,
            DateRange::Day => 1,
            DateRange::Hour => 0,
            DateRange::Minute => 0,
            DateRange::Second => 0,
            DateRange::CentiSec => 0,
        }
    }

    /// Largest admissible value of the sub-field.
    pub fn max_value(&self) -> (r: u16)
        ensures
            r == self.spec_max(),
    {
        match self {
            DateRange::Year => 9999,
            DateRange::Month => 12,
            DateRange::Day => 31,
            DateRange::Hour => 23,
            DateRange::Minute => 59,
            DateRange::Second => 59,
            DateRange::CentiSec => 99,
        }
    }
}

/// How decoding a 17-byte decimal date field can fail.
#[derive(Clone, Copy, Debug, PartialEq, Eq, Structural)]
pub enum DecDateTimeErr {
    /// A byte that can take no part in a decimal sub-field.
    InvalidChar(u8),
    /// A sub-field parsed, but its value fell outside its own range.
    InvalidDate { range: DateRange, actual: u16 },
}

pub open spec fn is_digit(b: u8) -> bool {
    0x30 <= b <= 0x39
}

pub open spec fn all_digits(s: Seq<u8>) -> bool {
    forall|i: int| 0 <= i < s.len() ==> is_digit(#[trigger] s[i])
}

/// The first byte of `s` that is not an ASCII digit.
pub open spec fn first_nondigit(s: Seq<u8>) -> Option<u8>
    decreases s.len(),
{
    if s.len() == 0 {
        None
    } else if !is_digit(s.first()) {
        Some(s.first())
    } else {
        first_nondigit(s.drop_first())
    }
}

/// The number an all-digit string denotes in decimal.
pub open spec fn dec_val(s: Seq<u8>) -> int
    decreases s.len(),
{
    if s.len() == 0 {
        0
    } else {
        10 * dec_val(s.drop_last()) + (s.last() - 0x30)
    }
}

pub open spec fn pow10(n: nat) -> int
    decreases n,
{
    if n == 0 {
        1
    } else {
        10 * pow10((n - 1) as nat)
    }
}

pub proof fn lemma_dec_val_bound(s: Seq<u8>)
    requires
        all_digits(s),
    ensures
        0 <= dec_val(s) < pow10(s.len()),
    decreases s.len(),
{
    if s.len() > 0 {
        assert(all_digits(s.drop_last()));
        lemma_dec_val_bound(s.drop_last());
    }
}

pub proof fn lemma_first_nondigit_none(s: Seq<u8>)
    requires
        all_digits(s),
    ensures
        first_nondigit(s) is None,
    decreases s.len(),
{
    if s.len() > 0 {
        assert(all_digits(s.drop_first()));
        lemma_first_nondigit_none(s.drop_first());
    }
}

pub proof fn lemma_first_nondigit_at(s: Seq<u8>, j: int)
    requires
        0 <= j < s.len(),
        forall|k: int| 0 <= k < j ==> is_digit(#[trigger] s[k]),
        !is_digit(s[j]),
    ensures
        first_nondigit(s) == Some(s[j]),
    decreases j,
{
    if j > 0 {
        lemma_first_nondigit_at(s.drop_first(), j - 1);
    }
}

/// What decoding one decimal sub-field window yields: its numeric value,
/// or the error the window forces.  The window is first trimmed and held
/// to the "D" character set as every string field is; a remaining
/// non-digit byte can take no part in a decimal number; and the value
/// must lie in the sub-field's own range.
pub open spec fn field_parse(win: Seq<u8>, range: DateRange) -> Result<u16, DecDateTimeErr> {
    match str_parse(win, Charset::D) {
        Err(ic) => Err(DecDateTimeErr::InvalidChar(ic.code_point)),
        Ok(content) => match first_nondigit(content) {
            Some(b) => Err(DecDateTimeErr::InvalidChar(b)),
            None => {
                let v = dec_val(content);
                if range.spec_min() <= v <= range.spec_max() {
                    Ok(v as u16)
                } else {
                    Err(DecDateTimeErr::InvalidDate { range, actual: v as u16 })
                }
            },
        },
    }
}

/// Decode one decimal sub-field window of at most four bytes, returning
/// the stored digit string together with its value.
fn date_field<const N: usize>(slice: &[u8], range: DateRange) -> (r: Result<
    (StrD<N>, u16),
    DecDateTimeErr,
>)
    requires
        slice@.len() == N,
        N <= 4,
    ensures
        match r {
            Ok((s, v)) => {
                &&& s.wf()
                &&& s.inner.bytes@ == slice@
                &&& str_parse(slice@, Charset::D) == Ok::<Seq<u8>, crate::fixed_str::InvalidChar>(
                    s@,
                )
                &&& all_digits(s@)
                &&& v == dec_val(s@)
                &&& field_parse(slice@, range) == Ok::<u16, DecDateTimeErr>(v)
            },
            Err(e) => field_parse(slice@, range) is Err && field_parse(slice@, range)->Err_0 == e,
        },
{
    let s = match StrD::<N>::from_slice(slice) {
        Ok(s) => s,
        Err(ic) => {
            return Err(DecDateTimeErr::InvalidChar(ic.code_point));
        },
    };
    let ghost content = s@;
    let len = s.len();
    let mut v: u16 = 0;
    let mut i: usize = 0;
    while i < len
        invariant
            i <= len == content.len() <= N <= 4,
            slice@.len() == N,
            s.wf(),
            content == s@,
            str_parse(slice@, Charset::D) == Ok::<Seq<u8>, crate::fixed_str::InvalidChar>(content),
            forall|k: int| 0 <= k < i ==> is_digit(#[trigger] content[k]),
            v == dec_val(content.take(i as int)),
            0 <= v < pow10(i as nat),
        decreases len - i,
    {
        let b = s.inner.bytes[i];
        proof {
            assert(content[i as int] == s.inner.bytes@[i as int]);
        }
        if b < 0x30 || b > 0x39 {
            proof {
                lemma_first_nondigit_at(content, i as int);
            }
            return Err(DecDateTimeErr::InvalidChar(b));
        }
        proof {
            assert(content.take(i + 1).drop_last() =~= content.take(i as int));
            assert(content.take(i + 1).last() == content[i as int]);
            assert(pow10((i + 1) as nat) == 10 * pow10(i as nat));
            assert(pow10(0) == 1 && pow10(1) == 10 && pow10(2) == 100 && pow10(3) == 1000) by {
                reveal_with_fuel(pow10, 5);
            }
            assert(v <= 999);
        }
        v = v * 10 + (b - 0x30) as u16;
        i = i + 1;
    }
    proof {
        assert(content.take(len as int) =~= content);
        lemma_first_nondigit_none(content);
    }
    let lo = range.min_value();
    let hi = range.max_value();
    if lo <= v && v <= hi {
        Ok((s, v))
    } else {
        Err(DecDateTimeErr::InvalidDate { range, actual: v })
    }
}

/// The unset sentinel: sixteen ASCII zero digits and a zero offset byte.
pub open spec fn date_unset(b: Seq<u8>) -> bool {
    &&& b[16] == 0
    &&& forall|i: int| 0 <= i < 16 ==> b[i] == 0x30
}

/// The seven sub-field windows of a 17-byte date field, in the order they
/// are validated.
pub open spec fn date_window(b: Seq<u8>, range: DateRange) -> Seq<u8> {
    match range {
        DateRange::Year => b.subrange(0, 4),
        DateRange::Month => b.subrange(4, 6),
        DateRange::Day => b.subrange(6, 8),
        DateRange::Hour => b.subrange(8, 10),
        DateRange::Minute => b.subrange(10, 12),
        DateRange::Second => b.subrange(12, 14),
        DateRange::CentiSec => b.subrange(14, 16),
    }
}

pub open spec fn date_field_err(b: Seq<u8>, range: DateRange) -> bool {
    field_parse(date_window(b, range), range) is Err
}

/// The first failing sub-field's error, in validation order, if any.
pub open spec fn date_err(b: Seq<u8>) -> Option<DecDateTimeErr> {
    if date_field_err(b, DateRange::Year) {
        Some(field_parse(date_window(b, DateRange::Year), DateRange::Year)->Err_0)
    } else if date_field_err(b, DateRange::Month) {
        Some(field_parse(date_window(b, DateRange::Month), DateRange::Month)->Err_0)
    } else if date_field_err(b, DateRange::Day) {
        Some(field_parse(date_window(b, DateRange::Day), DateRange::Day)->Err_0)
    } else if date_field_err(b, DateRange::Hour) {
        Some(field_parse(date_window(b, DateRange::Hour), DateRange::Hour)->Err_0)
    } else if date_field_err(b, DateRange::Minute) {
        Some(field_parse(date_window(b, DateRange::Minute), DateRange::Minute)->Err_0)
    } else if date_field_err(b, DateRange::Second) {
        Some(field_parse(date_window(b, DateRange::Second), DateRange::Second)->Err_0)
    } else if date_field_err(b, DateRange::CentiSec) {
        Some(field_parse(date_window(b, DateRange::CentiSec), DateRange::CentiSec)->Err_0)
    } else {
        None
    }
}

/// A 17-byte decimal timestamp: seven digit strings and a time-zone
/// offset counted in 15-minute steps from interval -48.
#[derive(Debug, PartialEq, Eq)]
pub struct DecDateTime {
    pub year: StrD<4>,
    pub month: StrD<2>,
    pub day: StrD<2>,
    pub hour: StrD<2>,
    pub minute: StrD<2>,
    pub second: StrD<2>,
    pub centi_sec: StrD<2>,
    pub time_zone: u8,
}

impl DecDateTime {
    /// Every stored sub-field is a digit string whose value lies in the
    /// sub-field's own range.
    pub open spec fn wf(&self) -> bool {
        &&& self.year.wf() && all_digits(self.year@) && 1 <= dec_val(self.year@) <= 9999
        &&& self.month.wf() && all_digits(self.month@) && 1 <= dec_val(self.month@) <= 12
        &&& self.day.wf() && all_digits(self.day@) && 1 <= dec_val(self.day@) <= 31
        &&& self.hour.wf() && all_digits(self.hour@) && 0 <= dec_val(self.hour@) <= 23
        &&& self.minute.wf() && all_digits(self.minute@) && 0 <= dec_val(self.minute@) <= 59
        &&& self.second.wf() && all_digits(self.second@) && 0 <= dec_val(self.second@) <= 59
        &&& self.centi_sec.wf() && all_digits(self.centi_sec@) && 0 <= dec_val(self.centi_sec@)
            <= 99
    }

    /// The stored date holds exactly the seven sub-field strings and the
    /// offset byte of the 17-byte window.
    pub open spec fn parsed_from(self, b: Seq<u8>) -> bool {
        &&& str_parse(date_window(b, DateRange::Year), Charset::D) == Ok::<
            Seq<u8>,
            crate::fixed_str::InvalidChar,
        >(self.year@)
        &&& str_parse(date_window(b, DateRange::Month), Charset::D) == Ok::<
            Seq<u8>,
            crate::fixed_str::InvalidChar,
        >(self.month@)
        &&& str_parse(date_window(b, DateRange::Day), Charset::D) == Ok::<
            Seq<u8>,
            crate::fixed_str::InvalidChar,
        >(self.day@)
        &&& str_parse(date_window(b, DateRange::Hour), Charset::D) == Ok::<
            Seq<u8>,
            crate::fixed_str::InvalidChar,
        >(self.hour@)
        &&& str_parse(date_window(b, DateRange::Minute), Charset::D) == Ok::<
            Seq<u8>,
            crate::fixed_str::InvalidChar,
        >(self.minute@)
        &&& str_parse(date_window(b, DateRange::Second), Charset::D) == Ok::<
            Seq<u8>,
            crate::fixed_str::InvalidChar,
        >(self.second@)
        &&& str_parse(date_window(b, DateRange::CentiSec), Charset::D) == Ok::<
            Seq<u8>,
            crate::fixed_str::InvalidChar,
        >(self.centi_sec@)
        &&& self.time_zone == b[16]
    }

    /// Decode a 17-byte window.  The all-zero sentinel means "no date
    /// set", and only that pattern does; any other content must validate
    /// sub-field by sub-field, each against its own parsed value, and
    /// the first violation is reported.
    pub fn try_parse(buffer: &[u8]) -> (r: Result<Option<Self>, DecDateTimeErr>)
        requires
            buffer@.len() == 17,
        ensures
            match r {
                Ok(None) => date_unset(buffer@),
                Ok(Some(d)) => {
                    &&& !date_unset(buffer@)
                    &&& date_err(buffer@) is None
                    &&& d.wf()
                    &&& d.parsed_from(buffer@)
                },
                Err(e) => !date_unset(buffer@) && date_err(buffer@) == Some(e),
            },
    {
        let mut all_zero = *vstd::slice::slice_index_get(buffer, 16) == 0;
        let mut i: usize = 0;
        while i < 16
            invariant
                i <= 16,
                buffer@.len() == 17,
                all_zero == (buffer@[16] == 0 && forall|k: int| 0 <= k < i ==> buffer@[k] == 0x30),
            decreases 16 - i,
        {
            if *vstd::slice::slice_index_get(buffer, i) != 0x30 {
                all_zero = false;
            }
            i = i + 1;
        }
        if all_zero {
            return Ok(None);
        }
        let (year, _) = match date_field::<4>(
            vstd::slice::slice_subrange(buffer, 0, 4),
            DateRange::Year,
        ) {
            Ok(p) => p,
            Err(e) => {
                return Err(e);
            },
        };
        let (month, _) = match date_field::<2>(
            vstd::slice::slice_subrange(buffer, 4, 6),
            DateRange::Month,
        ) {
            Ok(p) => p,
            Err(e) => {
                return Err(e);
            },
        };
        let (day, _) = match date_field::<2>(
            vstd::slice::slice_subrange(buffer, 6, 8),
            DateRange::Day,
        ) {
            Ok(p) => p,
            Err(e) => {
                return Err(e);
            },
        };
        let (hour, _) = match date_field::<2>(
            vstd::slice::slice_subrange(buffer, 8, 10),
            DateRange::Hour,
        ) {
            Ok(p) => p,
            Err(e) => {
                return Err(e);
            },
        };
        let (minute, _) = match date_field::<2>(
            vstd::slice::slice_subrange(buffer, 10, 12),
            DateRange::Minute,
        ) {
            Ok(p) => p,
            Err(e) => {
                return Err(e);
            },
        };
        let (second, _) = match date_field::<2>(
            vstd::slice::slice_subrange(buffer, 12, 14),
            DateRange::Second,
        ) {
            Ok(p) => p,
            Err(e) => {
                return Err(e);
            },
        };
        let (centi_sec, _) = match date_field::<2>(
            vstd::slice::slice_subrange(buffer, 14, 16),
            DateRange::CentiSec,
        ) {
            Ok(p) => p,
            Err(e) => {
                return Err(e);
            },
        };
        let time_zone = *vstd::slice::slice_index_get(buffer, 16);
        Ok(
            Some(
                DecDateTime {
                    year,
                    month,
                    day,
                    hour,
                    minute,
                    second,
                    centi_sec,
                    time_zone,
                },
            ),
        )
    }
}

/// A single-digit string stored in a field of width `N`.
fn digit_str<const N: usize>(d: u8) -> (s: StrD<N>)
    requires
        0x30 <= d <= 0x39,
        1 <= N <= 4,
    ensures
        s.wf(),
        s@ =~= seq![d],
        all_digits(s@),
        dec_val(s@) == d - 0x30,
{
    let mut v: Vec<u8> = Vec::new();
    v.push(d);
    match ArrStr::<N>::try_from_bytes(v.as_slice()) {
        Ok(inner) => {
            proof {
                assert(inner@ =~= seq![d]);
                assert(dec_val(seq![d]) == d - 0x30) by {
                    assert(seq![d].drop_last() =~= Seq::<u8>::empty());
                    assert(dec_val(Seq::<u8>::empty()) == 0);
                }
            }
            StrD { inner }
        },
        Err(_) => vstd::pervasive::unreached(),
    }
}

impl Default for DecDateTime {
    /// The first of January of the year 1, at midnight, GMT (time-zone
    /// interval 12).
    fn default() -> (d: Self)
        ensures
            d.wf(),
            dec_val(d.year@) == 1,
            dec_val(d.month@) == 1,
            dec_val(d.day@) == 1,
            dec_val(d.hour@) == 0,
            dec_val(d.minute@) == 0,
            dec_val(d.second@) == 0,
            dec_val(d.centi_sec@) == 0,
            d.time_zone == 12,
    {
        DecDateTime {
            year: digit_str::<4>(0x31),
            month: digit_str::<2>(0x31),
            day: digit_str::<2>(0x31),
            hour: digit_str::<2>(0x30),
            minute: digit_str::<2>(0x30),
            second: digit_str::<2>(0x30),
            centi_sec: digit_str::<2>(0x30),
            time_zone: 12,
        }
    }
}

} // verus!

use vstd::prelude::*;

use crate::date_time::DateRange;
use crate::date_time::DecDateTime;
use crate::date_time::DecDateTimeErr;
use crate::date_time::all_digits;
use crate::date_time::date_err;
use crate::date_time::date_unset;
use crate::date_time::date_window;
use crate::date_time::dec_val;
use crate::fixed_str::Charset;
use crate::fixed_str::InvalidChar;
use crate::fixed_str::StrD;
use crate::fixed_str::str_parse;

verus! {

/// The recording date of a directory record, in the same 17-byte
/// decimal layout as the volume dates; the centisecond sub-field is
/// validated but not kept.
#[derive(Debug, PartialEq, Eq)]
pub struct DirectoryRecordDate {
    pub year: StrD<4>,
    pub month: StrD<2>,
    pub day: StrD<2>,
    pub hour: StrD<2>,
    pub minute: StrD<2>,
    pub second: StrD<2>,
    /// Time zone offset from GMT in 15-minute intervals, starting at
    /// interval -48 (0).
    pub time_zone: u8,
}

impl DirectoryRecordDate {
    pub open spec fn wf(&self) -> bool {
        &&& self.year.wf() && all_digits(self.year@) && 1 <= dec_val(self.year@) <= 9999
        &&& self.month.wf() && all_digits(self.month@) && 1 <= dec_val(self.month@) <= 12
        &&& self.day.wf() && all_digits(self.day@) && 1 <= dec_val(self.day@) <= 31
        &&& self.hour.wf() && all_digits(self.hour@) && 0 <= dec_val(self.hour@) <= 23
        &&& self.minute.wf() && all_digits(self.minute@) && 0 <= dec_val(self.minute@) <= 59
        &&& self.second.wf() && all_digits(self.second@) && 0 <= dec_val(self.second@) <= 59
    }

    /// The stored date holds exactly the kept sub-field strings and the
    /// offset byte of the 17-byte window.
    pub open spec fn parsed_from(self, b: Seq<u8>) -> bool {
        &&& str_parse(date_window(b, DateRange::Year), Charset::D) == Ok::<Seq<u8>, InvalidChar>(
            self.year@,
        )
        &&& str_parse(date_window(b, DateRange::Month), Charset::D) == Ok::<Seq<u8>, InvalidChar>(
            self.month@,
        )
        &&& str_parse(date_window(b, DateRange::Day), Charset::D) == Ok::<Seq<u8>, InvalidChar>(
            self.day@,
        )
        &&& str_parse(date_window(b, DateRange::Hour), Charset::D) == Ok::<Seq<u8>, InvalidChar>(
            self.hour@,
        )
        &&& str_parse(date_window(b, DateRange::Minute), Charset::D) == Ok::<Seq<u8>, InvalidChar>(
            self.minute@,
        )
        &&& str_parse(date_window(b, DateRange::Second), Charset::D) == Ok::<Seq<u8>, InvalidChar>(
            self.second@,
        )
        &&& self.time_zone == b[16]
    }

    /// Decode a 17-byte window, with the same sentinel and per-field
    /// validation as the volume dates: every sub-field, the unkept
    /// centisecond included, must lie in its own range.
    pub fn try_parse(buffer: &[u8]) -> (r: Result<Option<Self>, DecDateTimeErr>)
        requires
            buffer@.len() == 17,
        ensures
            match r {
                Ok(None) => date_unset(buffer@),
                Ok(Some(d)) => {
                    &&& !date_unset(buffer@)
                    &&& date_err(buffer@) is None
                    &&& d.wf()
                    &&& d.parsed_from(buffer@)
                },
                Err(e) => !date_unset(buffer@) && date_err(buffer@) == Some(e),
            },
    {
        match DecDateTime::try_parse(buffer) {
            Ok(None) => Ok(None),
            Ok(Some(d)) => Ok(
                Some(
                    DirectoryRecordDate {
                        year: d.year,
                        month: d.month,
                        day: d.day,
                        hour: d.hour,
                        minute: d.minute,
                        second: d.second,
                        time_zone: d.time_zone,
                    },
                ),
            ),
            Err(e) => Err(e),
        }
    }
}

impl Default for DirectoryRecordDate {
    /// The first of January at midnight UTC in the year 1.
    fn default() -> (d: Self)
        ensures
            d.wf(),
            dec_val(d.year@) == 1,
            dec_val(d.month@) == 1,
            dec_val(d.day@) == 1,
            dec_val(d.hour@) == 0,
            dec_val(d.minute@) == 0,
            dec_val(d.second@) == 0,
            d.time_zone == 12,
    {
        let t = DecDateTime::default();
        DirectoryRecordDate {
            year: t.year,
            month: t.month,
            day: t.day,
            hour: t.hour,
            minute: t.minute,
            second: t.second,
            time_zone: t.time_zone,
        }
    }
}

/// One directory record: the fields of the on-disk layout as plain
/// values.
#[derive(Debug, PartialEq, Eq)]
pub struct DirectoryRecord {
    pub size: u8,
    pub ext_attr_len: u8,
    pub extent_location: u32,
    pub data_size: u32,
    pub create_date: DirectoryRecordDate,
    pub flags: u8,
    pub interleaved_file_size: Option<u8>,
    pub interleaved_gap_size: Option<u8>,
    pub vol_seq_nul: u16,
}

} // verus!
